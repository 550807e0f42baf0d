//! Dashboard controller: the state machine that ties widget selection to the
//! detail view and its displayed history.
//!
//! The machine has exactly two states — `Idle` (no widget selected) and
//! `DetailOpen` (one widget's detail view showing its history) — and runs for
//! the life of the session. Storage work happens elsewhere and
//! asynchronously: the controller only decides, and is handed each outcome
//! (a fetched history, a completed or failed append) to apply. An outcome
//! that arrives for a widget whose detail view is no longer open is
//! discarded, never applied to another widget's display.

use vstd::prelude::*;

use crate::CoreError;
use crate::history::WidgetEntry;
use crate::widget::WidgetDescriptor;
use crate::widget::widget_id_spec;

verus! {

/// Where the dashboard session stands.
#[derive(Clone, Debug)]
pub enum ControllerState {
    /// No widget is selected.
    Idle,
    /// The detail view of the widget with this id is open.
    DetailOpen { widget_id: String },
}

/// The dashboard's session state: the current machine state and the history
/// entries the open detail view displays, newest first.
#[derive(Debug)]
pub struct DashboardController {
    /// The machine state.
    pub state: ControllerState,
    /// What the open detail view shows, newest first; empty while no detail
    /// view is open or its fetch has not landed yet.
    pub displayed: Vec<WidgetEntry>,
}

/// Whether the widget at `index` may be selected: the title tile (always the
/// first entry, whatever its flags say) and header tiles are never selectable.
pub open spec fn selectable(ws: Seq<WidgetDescriptor>, index: int) -> bool {
    index != 0 && !ws[index].is_header
}

impl DashboardController {
    /// A fresh session: idle, nothing displayed.
    pub fn new() -> (r: Self)
        ensures
            r.state is Idle,
            r.displayed@ == Seq::<WidgetEntry>::empty(),
    {
        DashboardController { state: ControllerState::Idle, displayed: Vec::new() }
    }

    /// Selecting a widget: valid only from `Idle`, and only for a selectable
    /// (non-title, non-header) widget. On success the detail view opens for
    /// that widget with an empty display, awaiting the history fetch the
    /// caller now issues; otherwise nothing changes. Returns whether the
    /// selection was accepted.
    pub fn select_widget(&mut self, widgets: &Vec<WidgetDescriptor>, index: usize) -> (r: bool)
        requires
            index < widgets@.len(),
        ensures
            r == (old(self).state is Idle && selectable(widgets@, index as int)),
            r ==> ({
                &&& final(self).state matches ControllerState::DetailOpen { widget_id }
                &&& widget_id@ == widget_id_spec(widgets@[index as int].name@)
            }),
            r ==> final(self).displayed@ == Seq::<WidgetEntry>::empty(),
            !r ==> *final(self) == *old(self),
    {
        match &self.state {
            ControllerState::Idle => {
                if index != 0 && !widgets[index].is_header {
                    self.state = ControllerState::DetailOpen {
                        widget_id: widgets[index].widget_id(),
                    };
                    self.displayed = Vec::new();
                    true
                } else {
                    false
                }
            },
            ControllerState::DetailOpen { .. } => false,
        }
    }

    /// Dismissing the detail view: valid from `DetailOpen`, returning to
    /// `Idle` with nothing displayed; from `Idle` nothing changes. Returns
    /// whether a detail view was closed.
    pub fn close_detail(&mut self) -> (r: bool)
        ensures
            r == old(self).state is DetailOpen,
            r ==> final(self).state is Idle && final(self).displayed@ == Seq::<
                WidgetEntry,
            >::empty(),
            !r ==> *final(self) == *old(self),
    {
        match &self.state {
            ControllerState::DetailOpen { .. } => {
                self.state = ControllerState::Idle;
                self.displayed = Vec::new();
                true
            },
            ControllerState::Idle => false,
        }
    }

    /// The close gesture: attempting to scroll upward while the detail view
    /// is already at its top dismisses it. Any other wheel movement — or one
    /// arriving with no detail view open — changes nothing. Returns whether
    /// the view was closed.
    pub fn close_on_scroll(&mut self, upward: bool, scroll_top: i64) -> (r: bool)
        ensures
            r == (old(self).state is DetailOpen && upward && scroll_top <= 0),
            r ==> final(self).state is Idle && final(self).displayed@ == Seq::<
                WidgetEntry,
            >::empty(),
            !r ==> *final(self) == *old(self),
    {
        if upward && scroll_top <= 0 {
            self.close_detail()
        } else {
            false
        }
    }

    /// A completed history fetch lands. It is applied only when the detail
    /// view is still open on the very widget it was fetched for — a stale
    /// result for a closed or different detail view is discarded. A fetch
    /// that failed surfaces as an empty history, never as a crash.
    pub fn apply_fetched(&mut self, widget_id: &str, outcome: Result<
        Vec<WidgetEntry>,
        CoreError,
    >)
        ensures
            ({
                &&& old(self).state matches ControllerState::DetailOpen { widget_id: open_id }
                &&& open_id@ == widget_id@
            }) ==> final(self).state == old(self).state && (match outcome {
                Ok(entries) => final(self).displayed@ == entries@,
                Err(_) => final(self).displayed@ == Seq::<WidgetEntry>::empty(),
            }),
            !({
                &&& old(self).state matches ControllerState::DetailOpen { widget_id: open_id }
                &&& open_id@ == widget_id@
            }) ==> *final(self) == *old(self),
    {
        let applies = match &self.state {
            ControllerState::DetailOpen { widget_id: open_id } => {
                let key: String = widget_id.to_owned();
                *open_id == key
            },
            ControllerState::Idle => false,
        };
        if applies {
            match outcome {
                Ok(entries) => {
                    self.displayed = entries;
                },
                Err(_) => {
                    self.displayed = Vec::new();
                },
            }
        }
    }

    /// A submission's outcome lands on the detail view. A successful append
    /// for the widget whose detail view is open is prepended to the displayed
    /// history — no re-fetch; a failure, or an outcome for any other widget,
    /// leaves the display unchanged (the submitted text is the caller's to
    /// preserve for retry).
    pub fn apply_submitted(&mut self, widget_id: &str, outcome: Result<WidgetEntry, CoreError>)
        ensures
            ({
                &&& old(self).state matches ControllerState::DetailOpen { widget_id: open_id }
                &&& open_id@ == widget_id@
                &&& outcome is Ok
            }) ==> final(self).state == old(self).state && final(self).displayed@ == seq![
                outcome->Ok_0,
            ] + old(self).displayed@,
            !({
                &&& old(self).state matches ControllerState::DetailOpen { widget_id: open_id }
                &&& open_id@ == widget_id@
                &&& outcome is Ok
            }) ==> *final(self) == *old(self),
    {
        let applies = match &self.state {
            ControllerState::DetailOpen { widget_id: open_id } => {
                let key: String = widget_id.to_owned();
                *open_id == key
            },
            ControllerState::Idle => false,
        };
        if applies {
            match outcome {
                Ok(entry) => {
                    let shown = prepended(&self.displayed, entry);
                    self.displayed = shown;
                },
                Err(_) => {},
            }
        }
    }
}

/// A copy of `list` with `e` in front — how a fresh entry is shown without a
/// re-fetch.
fn prepended(list: &Vec<WidgetEntry>, e: WidgetEntry) -> (r: Vec<WidgetEntry>)
    ensures
        r@ == seq![e] + list@,
{
    let ghost first = e;
    let mut shown: Vec<WidgetEntry> = Vec::new();
    shown.push(e);
    proof {
        assert(shown@ =~= seq![first] + list@.subrange(0, 0));
    }
    let mut i: usize = 0;
    let n = list.len();
    while i < n
        invariant
            n == list@.len(),
            i <= n,
            shown@ == seq![first] + list@.subrange(0, i as int),
        decreases n - i,
    {
        shown.push(list[i].duplicate());
        proof {
            assert(shown@ =~= seq![first] + list@.subrange(0, i + 1));
        }
        i = i + 1;
    }
    proof {
        assert(list@.subrange(0, list@.len() as int) =~= list@);
    }
    shown
}

/// One interactive widget's input block: the text field's current value is
/// the caller's, but the locally displayed history and the latest-entry line
/// under the field are modeled here. The block lives in the grid, so its
/// display updates whether or not a detail view is open.
#[derive(Debug)]
pub struct InputPanel {
    /// The widget this block belongs to.
    pub widget_id: String,
    /// The entries this block displays, newest first.
    pub history: Vec<WidgetEntry>,
    /// The content of the newest entry, shown under the field; `None` until
    /// one exists.
    pub latest: Option<String>,
}

impl InputPanel {
    /// A fresh block for one widget: nothing loaded, nothing shown.
    pub fn new(widget_id: String) -> (r: Self)
        ensures
            r.widget_id == widget_id,
            r.history@ == Seq::<WidgetEntry>::empty(),
            r.latest is None,
    {
        InputPanel { widget_id, history: Vec::new(), latest: None }
    }

    /// The initial history fetch lands: the fetched entries (newest first)
    /// become the displayed history, and the newest one's content becomes the
    /// latest-entry line; an empty fetch leaves the line as it was.
    pub fn load(&mut self, entries: Vec<WidgetEntry>)
        ensures
            final(self).widget_id == old(self).widget_id,
            final(self).history@ == entries@,
            entries@.len() > 0 ==> final(self).latest == Some(entries@[0].content),
            entries@.len() == 0 ==> final(self).latest == old(self).latest,
    {
        if entries.len() > 0 {
            self.latest = Some(entries[0].content.clone());
        }
        self.history = entries;
    }

    /// A submission's outcome lands on this block: on success the written
    /// entry is prepended and its content becomes the latest-entry line; on
    /// failure nothing changes, and the submitted text stays with the caller
    /// for retry.
    pub fn submit_outcome(&mut self, outcome: Result<WidgetEntry, CoreError>)
        ensures
            final(self).widget_id == old(self).widget_id,
            outcome matches Ok(e) ==> final(self).history@ == seq![e] + old(self).history@
                && final(self).latest == Some(e.content),
            outcome is Err ==> *final(self) == *old(self),
    {
        match outcome {
            Ok(entry) => {
                self.latest = Some(entry.content.clone());
                let shown = prepended(&self.history, entry);
                self.history = shown;
            },
            Err(_) => {},
        }
    }
}

/// The caller-side gate in front of the store: a submission reaches
/// `add_entry` only when both the widget id and the submitted text are
/// non-empty (empty submissions are rejected here, before the store).
pub fn validate_submission(widget_id: &str, content: &str) -> (r: bool)
    ensures
        r == (widget_id@.len() > 0 && content@.len() > 0),
{
    !widget_id.is_empty() && !content.is_empty()
}

} // verus!
