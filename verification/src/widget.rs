//! Widget descriptors and the dashboard's registry: an immutable, ordered list
//! of widget declarations created once at startup.
//!
//! A widget's id is derived deterministically from its display name —
//! lower-cased, spaces turned into hyphens, prefixed with `widget-` — and an
//! empty name maps to the reserved title id. The first entry in display order
//! is always the non-selectable title widget.

use vstd::prelude::*;

use crate::layout::AspectRatio;

verus! {

/// Which content renderer a widget invokes, with that renderer's parameters.
#[derive(Clone, Debug)]
pub enum ContentKind {
    /// A static block of text.
    Text { text: String },
    /// A bare progress bar at a fixed percentage.
    Progress { percent: u32 },
    /// A progress bar labeled with its numerator, denominator and rounded
    /// percentage.
    LabeledProgress { numerator: u32, denominator: u32 },
    /// A text input whose submissions accumulate in the history store.
    Input { placeholder: String },
}

/// One dashboard tile: display strings, a declared height/width ratio, a
/// header flag, and a content renderer tag. Immutable once created.
#[derive(Clone, Debug)]
pub struct WidgetDescriptor {
    /// Display name; may be empty (the title widget's is).
    pub name: String,
    /// Display description; may be empty.
    pub description: String,
    /// Height/width ratio used by the dimension calculator.
    pub aspect: AspectRatio,
    /// Header widgets are never selectable and render without body or
    /// description.
    pub is_header: bool,
    /// Which renderer draws this widget's body.
    pub content: ContentKind,
}

/// One character of a widget id: an ASCII capital is lower-cased and a space
/// becomes a hyphen; everything else passes through.
pub open spec fn id_char(c: char) -> char {
    if c == ' ' {
        '-'
    } else if 'A' <= c && c <= 'Z' {
        ((c as int) + 32) as char
    } else {
        c
    }
}

/// The id derived from a widget name: `widget-` followed by the name with
/// capitals lower-cased and spaces turned into hyphens; the empty name maps to
/// the reserved title id.
pub open spec fn widget_id_spec(name: Seq<char>) -> Seq<char> {
    if name.len() == 0 {
        "widget-title"@
    } else {
        "widget-"@ + name.map_values(|c: char| id_char(c))
    }
}

/// `id_char`, as executable code.
fn id_char_of(c: char) -> (r: char)
    ensures
        r == id_char(c),
{
    match c {
        ' ' => '-',
        'A' => 'a',
        'B' => 'b',
        'C' => 'c',
        'D' => 'd',
        'E' => 'e',
        'F' => 'f',
        'G' => 'g',
        'H' => 'h',
        'I' => 'i',
        'J' => 'j',
        'K' => 'k',
        'L' => 'l',
        'M' => 'm',
        'N' => 'n',
        'O' => 'o',
        'P' => 'p',
        'Q' => 'q',
        'R' => 'r',
        'S' => 's',
        'T' => 't',
        'U' => 'u',
        'V' => 'v',
        'W' => 'w',
        'X' => 'x',
        'Y' => 'y',
        'Z' => 'z',
        _ => c,
    }
}

impl WidgetDescriptor {
    /// A new descriptor holding exactly the given declaration.
    pub fn new(
        name: String,
        description: String,
        aspect: AspectRatio,
        is_header: bool,
        content: ContentKind,
    ) -> (r: Self)
        requires
            aspect.is_valid(),
        ensures
            r.name == name,
            r.description == description,
            r.aspect == aspect,
            r.is_header == is_header,
            r.content == content,
    {
        WidgetDescriptor { name, description, aspect, is_header, content }
    }

    /// This widget's identity key into the history store, derived from its
    /// name alone: deterministic, so the same declaration always reaches the
    /// same history.
    pub fn widget_id(&self) -> (r: String)
        ensures
            r@ == widget_id_spec(self.name@),
    {
        if self.name.as_str().is_empty() {
            let id = String::from_str("widget-title");
            proof {
                assert(id@ == "widget-title"@);
            }
            id
        } else {
            let mut id = String::from_str("widget-");
            let n = self.name.as_str().unicode_len();
            let mut i: usize = 0;
            while i < n
                invariant
                    n == self.name@.len(),
                    i <= n,
                    id@ == "widget-"@ + self.name@.subrange(0, i as int).map_values(
                        |c: char| id_char(c),
                    ),
                decreases n - i,
            {
                let c = self.name.as_str().get_char(i);
                id.push(id_char_of(c));
                proof {
                    assert(self.name@.subrange(0, i + 1).drop_last() =~= self.name@.subrange(
                        0,
                        i as int,
                    ));
                    assert(self.name@.subrange(0, i + 1).map_values(|c: char| id_char(c))
                        =~= self.name@.subrange(0, i as int).map_values(|c: char| id_char(c)).push(
                        id_char(self.name@[i as int]),
                    ));
                }
                i = i + 1;
            }
            proof {
                assert(self.name@.subrange(0, self.name@.len() as int) =~= self.name@);
            }
            id
        }
    }
}

/// The registry invariant: every widget id is unique, so each widget reaches
/// its own history and no other's.
pub open spec fn ids_distinct_spec(ws: Seq<WidgetDescriptor>) -> bool {
    forall|i: int, j: int|
        0 <= i < j < ws.len() ==> widget_id_spec(ws[i].name@) != widget_id_spec(ws[j].name@)
}

/// Checks the registry invariant: no two widgets derive the same id.
pub fn ids_distinct(ws: &Vec<WidgetDescriptor>) -> (r: bool)
    ensures
        r == ids_distinct_spec(ws@),
{
    let n = ws.len();
    let mut i: usize = 0;
    while i < n
        invariant
            n == ws@.len(),
            i <= n,
            forall|a: int, b: int|
                0 <= a < b < ws@.len() && a < i ==> widget_id_spec(ws@[a].name@) != widget_id_spec(
                    ws@[b].name@,
                ),
        decreases n - i,
    {
        let id_i = ws[i].widget_id();
        let mut j: usize = i + 1;
        while j < n
            invariant
                n == ws@.len(),
                i < j || j == i + 1,
                i < n,
                j <= n,
                id_i@ == widget_id_spec(ws@[i as int].name@),
                forall|b: int|
                    i < b < j ==> widget_id_spec(ws@[i as int].name@) != widget_id_spec(
                        ws@[b].name@,
                    ),
            decreases n - j,
        {
            let id_j = ws[j].widget_id();
            if id_i == id_j {
                return false;
            }
            j = j + 1;
        }
        i = i + 1;
    }
    true
}

/// A plain text widget.
fn text_widget(name: &str, description: &str, aspect: AspectRatio, text: &str) -> (r:
    WidgetDescriptor)
    requires
        aspect.is_valid(),
    ensures
        r.name@ == name@,
        r.description@ == description@,
        r.aspect == aspect,
        !r.is_header,
        r.content is Text,
{
    WidgetDescriptor {
        name: String::from_str(name),
        description: String::from_str(description),
        aspect,
        is_header: false,
        content: ContentKind::Text { text: String::from_str(text) },
    }
}

/// A labeled progress bar widget.
fn progress_widget(name: &str, description: &str, aspect: AspectRatio, numerator: u32) -> (r:
    WidgetDescriptor)
    requires
        aspect.is_valid(),
    ensures
        r.name@ == name@,
        r.description@ == description@,
        r.aspect == aspect,
        !r.is_header,
        r.content is LabeledProgress,
{
    WidgetDescriptor {
        name: String::from_str(name),
        description: String::from_str(description),
        aspect,
        is_header: false,
        content: ContentKind::LabeledProgress { numerator, denominator: 100 },
    }
}

/// An interactive input widget: its submissions accumulate in the history
/// store under this widget's id.
fn input_widget(name: &str, description: &str, aspect: AspectRatio, placeholder: &str) -> (r:
    WidgetDescriptor)
    requires
        aspect.is_valid(),
    ensures
        r.name@ == name@,
        r.description@ == description@,
        r.aspect == aspect,
        !r.is_header,
        r.content is Input,
{
    WidgetDescriptor {
        name: String::from_str(name),
        description: String::from_str(description),
        aspect,
        is_header: false,
        content: ContentKind::Input { placeholder: String::from_str(placeholder) },
    }
}

/// A section header: never selectable, no body or description.
fn header_widget(name: &str, aspect: AspectRatio) -> (r: WidgetDescriptor)
    requires
        aspect.is_valid(),
    ensures
        r.name@ == name@,
        r.aspect == aspect,
        r.is_header,
        r.content is Text,
{
    WidgetDescriptor {
        name: String::from_str(name),
        description: String::from_str(""),
        aspect,
        is_header: true,
        content: ContentKind::Text { text: String::from_str("") },
    }
}

/// The dashboard's widget table, in display order: the title tile first, then
/// the content tiles. Every declared aspect ratio is positive, and the first
/// entry is the (nameless) title widget.
pub fn default_widgets() -> (r: Vec<WidgetDescriptor>)
    ensures
        r@.len() == 25,
        r@[0].name@.len() == 0,
        forall|i: int| 0 <= i < r@.len() ==> (#[trigger] r@[i].aspect).is_valid(),
        forall|i: int| 0 <= i < r@.len() ==> ((#[trigger] r@[i].is_header) <==> i == 3),
        forall|i: int|
            0 <= i < r@.len() ==> ((#[trigger] r@[i].content) is Input <==> (i == 7 || i == 11
                || i == 15 || i == 19 || i == 23)),
{
    let sixth = AspectRatio::new(1, 6);
    let half = AspectRatio::new(1, 2);
    let two_thirds = AspectRatio::new(2, 3);
    let third = AspectRatio::new(1, 3);
    proof {
        reveal_strlit("");
    }
    let mut ws: Vec<WidgetDescriptor> = Vec::new();
    ws.push(text_widget("", "", sixth, "welliu\u{1d0d}"));
    ws.push(
        text_widget(
            "Widget 2",
            "This is the description for Widget 2.",
            half,
            "Sample text for Widget 2.",
        ),
    );
    ws.push(
        text_widget(
            "Widget 3",
            "This is the description for Widget 3.",
            two_thirds,
            "Another sample text for Widget 3.",
        ),
    );
    ws.push(header_widget("Header 2", sixth));
    ws.push(progress_widget("Widget 4", "This is the description for Widget 4.", third, 0));
    ws.push(
        text_widget(
            "Widget 5",
            "This is the description for Widget 5.",
            third,
            "Text block for Widget 5.",
        ),
    );
    ws.push(progress_widget("Widget 6", "This is the description for Widget 6.", third, 10));
    ws.push(input_widget("Widget 7", "This is the query for Widget 7.", third, "Type something..."));
    ws.push(progress_widget("Widget 8", "This is the description for Widget 8.", third, 20));
    ws.push(
        text_widget(
            "Widget 9",
            "This is the description for Widget 9.",
            third,
            "Text block for Widget 9.",
        ),
    );
    ws.push(progress_widget("Widget 10", "This is the description for Widget 10.", third, 30));
    ws.push(
        input_widget("Widget 11", "This is the query for Widget 11.", third, "Type something..."),
    );
    ws.push(progress_widget("Widget 12", "This is the description for Widget 12.", third, 40));
    ws.push(
        text_widget(
            "Widget 13",
            "This is the description for Widget 13.",
            third,
            "Text block for Widget 13.",
        ),
    );
    ws.push(progress_widget("Widget 14", "This is the description for Widget 14.", third, 50));
    ws.push(
        input_widget("Widget 15", "This is the query for Widget 15.", third, "Type something..."),
    );
    ws.push(progress_widget("Widget 16", "This is the description for Widget 16.", third, 60));
    ws.push(
        text_widget(
            "Widget 17",
            "This is the description for Widget 17.",
            third,
            "Text block for Widget 17.",
        ),
    );
    ws.push(progress_widget("Widget 18", "This is the description for Widget 18.", third, 70));
    ws.push(
        input_widget("Widget 19", "This is the query for Widget 19.", third, "Type something..."),
    );
    ws.push(progress_widget("Widget 20", "This is the description for Widget 20.", third, 80));
    ws.push(
        text_widget(
            "Widget 21",
            "This is the description for Widget 21.",
            third,
            "Text block for Widget 21.",
        ),
    );
    ws.push(progress_widget("Widget 22", "This is the description for Widget 22.", third, 90));
    ws.push(
        input_widget("Widget 23", "This is the query for Widget 23.", third, "Type something..."),
    );
    ws.push(progress_widget("Widget 24", "This is the description for Widget 24.", third, 100));
    ws
}

} // verus!
