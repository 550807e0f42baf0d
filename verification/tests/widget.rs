use wellium::layout::AspectRatio;
use wellium::widget::ContentKind;
use wellium::widget::WidgetDescriptor;
use wellium::widget::default_widgets;
use wellium::widget::ids_distinct;

fn named(name: &str) -> WidgetDescriptor {
    WidgetDescriptor::new(
        String::from(name),
        String::from("a description"),
        AspectRatio::new(1, 3),
        false,
        ContentKind::Text { text: String::from("body") },
    )
}

#[test]
fn widget_id_lowercases_and_hyphenates() {
    assert_eq!(named("Widget 2").widget_id(), "widget-widget-2");
    assert_eq!(named("Header 2").widget_id(), "widget-header-2");
    assert_eq!(named("Widget 24").widget_id(), "widget-widget-24");
}

#[test]
fn widget_id_of_empty_name_is_title() {
    assert_eq!(named("").widget_id(), "widget-title");
}

#[test]
fn widget_id_is_deterministic() {
    assert_eq!(named("Widget 7").widget_id(), named("Widget 7").widget_id());
}

#[test]
fn widget_id_passes_other_characters_through() {
    assert_eq!(named("abc-7_x").widget_id(), "widget-abc-7_x");
}

#[test]
fn default_widgets_shape() {
    let ws = default_widgets();
    assert_eq!(ws.len(), 25);
    assert_eq!(ws[0].name, "");
    assert!(!ws[0].is_header);
    assert_eq!(ws[0].widget_id(), "widget-title");
}

#[test]
fn default_widgets_header_entry() {
    let ws = default_widgets();
    assert!(ws[3].is_header);
    assert_eq!(ws[3].name, "Header 2");
    assert!(ws.iter().enumerate().all(|(i, w)| i == 3 || !w.is_header));
}

#[test]
fn default_widgets_have_distinct_ids() {
    let ws = default_widgets();
    assert!(ids_distinct(&ws));
}

#[test]
fn default_widgets_interactive_entries() {
    let ws = default_widgets();
    let input_positions: Vec<usize> = ws
        .iter()
        .enumerate()
        .filter(|(_, w)| matches!(w.content, ContentKind::Input { .. }))
        .map(|(i, _)| i)
        .collect();
    assert_eq!(input_positions, vec![7, 11, 15, 19, 23]);
    assert_eq!(ws[7].widget_id(), "widget-widget-7");
}

#[test]
fn default_widgets_aspect_ratios() {
    let ws = default_widgets();
    assert_eq!((ws[0].aspect.num, ws[0].aspect.den), (1, 6));
    assert_eq!((ws[1].aspect.num, ws[1].aspect.den), (1, 2));
    assert_eq!((ws[2].aspect.num, ws[2].aspect.den), (2, 3));
    assert_eq!((ws[4].aspect.num, ws[4].aspect.den), (1, 3));
}

#[test]
fn ids_distinct_detects_duplicates() {
    let ws = vec![named("Widget 2"), named("other"), named("Widget 2")];
    assert!(!ids_distinct(&ws));
}

#[test]
fn ids_distinct_on_empty_and_single() {
    assert!(ids_distinct(&Vec::new()));
    assert!(ids_distinct(&vec![named("solo")]));
}

#[test]
fn content_kinds_cover_every_renderer() {
    let ws = default_widgets();
    assert!(matches!(ws[0].content, ContentKind::Text { .. }));
    assert!(matches!(ws[4].content, ContentKind::LabeledProgress { numerator: 0, denominator: 100 }));
    assert!(matches!(ws[24].content, ContentKind::LabeledProgress { numerator: 100, denominator: 100 }));
    let bare = WidgetDescriptor::new(
        String::from("gauge"),
        String::new(),
        AspectRatio::new(1, 3),
        false,
        ContentKind::Progress { percent: 40 },
    );
    assert!(matches!(bare.content, ContentKind::Progress { percent: 40 }));
}
