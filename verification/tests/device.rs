use wellium::device::AndroidBluetoothManager;
use wellium::device::BluetoothManager;
use wellium::device::IosBluetoothManager;
use wellium::device::process_data;

#[test]
fn process_data_passes_bytes_through() {
    let data = [1u8, 2, 3, 250];
    assert_eq!(process_data(&data), vec![1u8, 2, 3, 250]);
    assert_eq!(process_data(&[]), Vec::<u8>::new());
}

#[test]
fn android_stub_connects() {
    let mgr = AndroidBluetoothManager;
    assert!(mgr.connect().is_ok());
    assert_eq!(mgr.read_data().unwrap(), Vec::<u8>::new());
}

#[test]
fn ios_stub_connects() {
    let mgr = IosBluetoothManager;
    assert!(mgr.connect().is_ok());
    assert_eq!(mgr.read_data().unwrap(), Vec::<u8>::new());
}
