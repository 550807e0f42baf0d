//! Platform connectivity collaborators. Their whole contract is: attempt a
//! connection, return success or a descriptive failure; read bytes or fail.
//! The dashboard core treats their failures as opaque errors to display and
//! depends on nothing else about them.

use vstd::prelude::*;

verus! {

/// A platform's connectivity stub. Implementations attempt a connection and
/// read raw bytes; no retry, no state machine.
pub trait BluetoothManager {
    /// Attempts a connection; succeeds or reports a descriptive failure.
    fn connect(&self) -> Result<(), String>;

    /// Reads raw bytes; hands them back or reports a descriptive failure.
    fn read_data(&self) -> Result<Vec<u8>, String>;
}

/// The Android connectivity stub: connects trivially and has no data yet.
pub struct AndroidBluetoothManager;

impl BluetoothManager for AndroidBluetoothManager {
    fn connect(&self) -> (r: Result<(), String>)
        ensures
            r is Ok,
    {
        Ok(())
    }

    fn read_data(&self) -> (r: Result<Vec<u8>, String>)
        ensures
            r matches Ok(d) && d@ == Seq::<u8>::empty(),
    {
        Ok(Vec::new())
    }
}

/// The iOS connectivity stub: connects trivially and has no data yet.
pub struct IosBluetoothManager;

impl BluetoothManager for IosBluetoothManager {
    fn connect(&self) -> (r: Result<(), String>)
        ensures
            r is Ok,
    {
        Ok(())
    }

    fn read_data(&self) -> (r: Result<Vec<u8>, String>)
        ensures
            r matches Ok(d) && d@ == Seq::<u8>::empty(),
    {
        Ok(Vec::new())
    }
}

/// Core processing of bytes read from a connectivity collaborator: the data
/// passes through unchanged.
pub fn process_data(data: &[u8]) -> (r: Vec<u8>)
    ensures
        r@ == data@,
{
    let mut out: Vec<u8> = Vec::new();
    let n = data.len();
    let mut i: usize = 0;
    while i < n
        invariant
            n == data@.len(),
            i <= n,
            out@ == data@.subrange(0, i as int),
        decreases n - i,
    {
        out.push(data[i]);
        proof {
            assert(out@ =~= data@.subrange(0, i + 1));
        }
        i = i + 1;
    }
    proof {
        assert(data@.subrange(0, data@.len() as int) =~= data@);
    }
    out
}

} // verus!
