//! Per-widget history store: a durable, append-only journal of user-submitted
//! entries, keyed by widget identity.
//!
//! The store holds one journal of all entries in submission order and answers
//! reads by an exact-match filter, newest first — the observable contract of
//! the persistence layer. Durability itself (writing the journal to the
//! platform's storage facility and reading it back on startup) is the
//! surrounding application's job: `open` accepts whatever journal the platform
//! handed back, and the timestamp a write carries is supplied by the caller's
//! clock at write time.

use vstd::prelude::*;

verus! {

/// One timestamped, user-submitted content record tied to a specific widget.
/// Immutable once written: entries are only ever created through `add_entry`,
/// never mutated, never deleted.
#[derive(Clone, Debug)]
pub struct WidgetEntry {
    /// The owning widget's id.
    pub widget_id: String,
    /// Wall-clock time of the write, as an ISO-8601 string.
    pub timestamp: String,
    /// The submitted text; never empty.
    pub content: String,
}

impl WidgetEntry {
    /// An exact copy, field for field (a derived clone of a `String`-carrying
    /// struct says nothing to the verifier, so the copy is spelled out).
    pub fn duplicate(&self) -> (r: Self)
        ensures
            r == *self,
    {
        WidgetEntry {
            widget_id: self.widget_id.clone(),
            timestamp: self.timestamp.clone(),
            content: self.content.clone(),
        }
    }
}

/// Every entry of `journal` whose `widget_id` equals `id` exactly, in
/// most-recently-added-first order.
pub open spec fn entries_for(journal: Seq<WidgetEntry>, id: Seq<char>) -> Seq<WidgetEntry>
    decreases journal.len(),
{
    if journal.len() == 0 {
        Seq::empty()
    } else if journal.last().widget_id@ == id {
        seq![journal.last()] + entries_for(journal.drop_last(), id)
    } else {
        entries_for(journal.drop_last(), id)
    }
}

/// The per-widget history store. Its state is the journal of every entry ever
/// written, oldest first.
#[derive(Debug)]
pub struct HistoryStore {
    journal: Vec<WidgetEntry>,
}

impl View for HistoryStore {
    type V = Seq<WidgetEntry>;

    closed spec fn view(&self) -> Seq<WidgetEntry> {
        self.journal@
    }
}

impl HistoryStore {
    /// Opens the store over whatever journal the platform's persistence
    /// facility holds — an empty one on first open, the surviving journal on
    /// every later open. Opening neither adds nor loses entries, which is what
    /// makes re-opening idempotent (`lemma_open_idempotent`).
    pub fn open(persisted: Vec<WidgetEntry>) -> (s: Self)
        ensures
            s@ == persisted@,
    {
        HistoryStore { journal: persisted }
    }

    /// The full journal, oldest first — what the platform must persist so that
    /// a later `open` sees this store's state.
    pub fn snapshot(&self) -> (r: &Vec<WidgetEntry>)
        ensures
            r@ == self@,
    {
        &self.journal
    }

    /// Appends one entry to the journal and returns the written value: it
    /// carries exactly the given widget id, the caller's wall-clock timestamp,
    /// and the submitted content. Nothing else in the journal changes, so
    /// histories of other widgets are untouched.
    pub fn add_entry(&mut self, widget_id: &str, timestamp: String, content: &str) -> (e:
        WidgetEntry)
        requires
            widget_id@.len() > 0,
            content@.len() > 0,
        ensures
            e.widget_id@ == widget_id@,
            e.timestamp == timestamp,
            e.content@ == content@,
            final(self)@ == old(self)@.push(e),
    {
        let entry = WidgetEntry {
            widget_id: widget_id.to_owned(),
            timestamp,
            content: content.to_owned(),
        };
        let stored = entry.duplicate();
        self.journal.push(stored);
        entry
    }

    /// Every entry written for `widget_id`, most recently added first. An
    /// exact-match filter: entries of other widgets never appear, and an id
    /// with no entries yields an empty vector, never an error.
    pub fn get_entries(&self, widget_id: &str) -> (r: Vec<WidgetEntry>)
        ensures
            r@ == entries_for(self@, widget_id@),
    {
        let key: String = widget_id.to_owned();
        let mut r: Vec<WidgetEntry> = Vec::new();
        let mut idx: usize = self.journal.len();
        while idx > 0
            invariant
                idx <= self.journal.len(),
                key@ == widget_id@,
                r@ == entries_for(self@.subrange(idx as int, self@.len() as int), widget_id@),
            decreases idx,
        {
            idx = idx - 1;
            let ghost prev = self@.subrange(idx + 1, self@.len() as int);
            let ghost cur = self@.subrange(idx as int, self@.len() as int);
            if self.journal[idx].widget_id == key {
                r.push(self.journal[idx].duplicate());
            }
            proof {
                lemma_entries_for_first(cur, widget_id@);
                assert(cur.drop_first() =~= prev);
                assert(r@ =~= entries_for(cur, widget_id@));
            }
        }
        proof {
            assert(self@.subrange(0, self@.len() as int) =~= self@);
        }
        r
    }
}

/// Appending one entry: a read for that entry's widget afterwards starts with
/// the new entry, and a read for any other widget is exactly what it was
/// before the append.
pub proof fn lemma_entries_for_push(journal: Seq<WidgetEntry>, e: WidgetEntry, id: Seq<char>)
    ensures
        e.widget_id@ == id ==> entries_for(journal.push(e), id) == seq![e] + entries_for(
            journal,
            id,
        ),
        e.widget_id@ != id ==> entries_for(journal.push(e), id) == entries_for(journal, id),
{
    assert(journal.push(e).drop_last() =~= journal);
    if e.widget_id@ != id {
        assert(entries_for(journal.push(e), id) =~= entries_for(journal, id));
    }
}

/// Read-after-write: once an append for a widget is observed to complete, a
/// read for that widget sees the written entry, and sees it first; entries
/// written for one widget never appear in another widget's history.
pub proof fn lemma_read_after_write(journal: Seq<WidgetEntry>, e: WidgetEntry, other: Seq<char>)
    requires
        e.widget_id@ != other,
    ensures
        entries_for(journal.push(e), e.widget_id@).len() > 0,
        entries_for(journal.push(e), e.widget_id@).first() == e,
        entries_for(journal.push(e), other) == entries_for(journal, other),
{
    lemma_entries_for_push(journal, e, e.widget_id@);
    lemma_entries_for_push(journal, e, other);
}

/// Ordering: three sequential appends for one widget are read back newest
/// first — the third, then the second, then the first — ahead of whatever the
/// journal already held for that widget.
pub proof fn lemma_submission_order(
    journal: Seq<WidgetEntry>,
    e1: WidgetEntry,
    e2: WidgetEntry,
    e3: WidgetEntry,
    id: Seq<char>,
)
    requires
        e1.widget_id@ == id,
        e2.widget_id@ == id,
        e3.widget_id@ == id,
    ensures
        entries_for(journal.push(e1).push(e2).push(e3), id) == seq![e3, e2, e1] + entries_for(
            journal,
            id,
        ),
{
    lemma_entries_for_push(journal, e1, id);
    lemma_entries_for_push(journal.push(e1), e2, id);
    lemma_entries_for_push(journal.push(e1).push(e2), e3, id);
    assert(seq![e3] + (seq![e2] + (seq![e1] + entries_for(journal, id))) =~= seq![e3, e2, e1]
        + entries_for(journal, id));
}

/// A widget id no entry carries reads back as an empty history — never an
/// error.
pub proof fn lemma_unknown_widget_empty(journal: Seq<WidgetEntry>, id: Seq<char>)
    requires
        forall|i: int| 0 <= i < journal.len() ==> journal[i].widget_id@ != id,
    ensures
        entries_for(journal, id) == Seq::<WidgetEntry>::empty(),
    decreases journal.len(),
{
    if journal.len() > 0 {
        lemma_unknown_widget_empty(journal.drop_last(), id);
    }
}

/// Exact-match filtering: every entry a read returns carries exactly the
/// requested widget id.
pub proof fn lemma_entries_match(journal: Seq<WidgetEntry>, id: Seq<char>)
    ensures
        forall|k: int|
            0 <= k < entries_for(journal, id).len() ==> entries_for(journal, id)[k].widget_id@
                == id,
    decreases journal.len(),
{
    if journal.len() > 0 {
        lemma_entries_match(journal.drop_last(), id);
        let filtered = entries_for(journal, id);
        let rest = entries_for(journal.drop_last(), id);
        if journal.last().widget_id@ == id {
            assert forall|k: int| 0 <= k < filtered.len() implies filtered[k].widget_id@ == id by {
                if k > 0 {
                    assert(filtered[k] == rest[k - 1]);
                }
            }
        }
    }
}

/// Idempotent open: a store's state is its journal and nothing else, and
/// `open` adopts the persisted journal unchanged — it provisions no entries
/// and drops none. So a store opened from the snapshot of an already-opened
/// store (equal views, by the contracts of `open` and `snapshot`) answers
/// every read of every widget id exactly as the first store does: opening
/// twice is usable identically to opening once.
pub proof fn lemma_open_idempotent(first: HistoryStore, second: HistoryStore, id: Seq<char>)
    requires
        second@ == first@,
    ensures
        entries_for(second@, id) == entries_for(first@, id),
{
}

/// Peeling the oldest entry off a journal: filtering starts with everything
/// newer, and the oldest entry comes last if it matches.
proof fn lemma_entries_for_first(journal: Seq<WidgetEntry>, id: Seq<char>)
    requires
        journal.len() > 0,
    ensures
        entries_for(journal, id) == entries_for(journal.drop_first(), id) + (
        if journal.first().widget_id@ == id {
            seq![journal.first()]
        } else {
            Seq::<WidgetEntry>::empty()
        }),
    decreases journal.len(),
{
    if journal.len() == 1 {
        assert(journal.drop_last() =~= journal.drop_first());
        assert(entries_for(journal.drop_first(), id) =~= Seq::empty());
        if journal.first().widget_id@ == id {
            assert(entries_for(journal, id) =~= entries_for(journal.drop_first(), id) + seq![
                journal.first(),
            ]);
        } else {
            assert(entries_for(journal, id) =~= entries_for(journal.drop_first(), id));
        }
    } else {
        let body = journal.drop_last();
        lemma_entries_for_first(body, id);
        assert(journal.drop_first().drop_last() =~= body.drop_first());
        assert(journal.drop_first().last() == journal.last());
        if journal.first().widget_id@ == id {
            assert(entries_for(journal, id) =~= entries_for(journal.drop_first(), id) + seq![
                journal.first(),
            ]);
        } else {
            assert(entries_for(journal, id) =~= entries_for(journal.drop_first(), id));
        }
    }
}

} // verus!
