use sitegen::{extract_title, title_of, MdEvent};

#[test]
fn title_from_events_single_run() {
    let events = vec![
        MdEvent::HeadingStart(1),
        MdEvent::Text("Hello".to_string()),
        MdEvent::HeadingEnd(1),
        MdEvent::Other,
    ];
    assert_eq!(extract_title(&events), "Hello");
}

#[test]
fn title_from_events_last_run_wins() {
    let events = vec![
        MdEvent::HeadingStart(1),
        MdEvent::Text("A ".to_string()),
        MdEvent::Other,
        MdEvent::Text("B".to_string()),
        MdEvent::Other,
        MdEvent::Text(" C".to_string()),
        MdEvent::HeadingEnd(1),
        MdEvent::Text("body".to_string()),
    ];
    assert_eq!(extract_title(&events), " C");
}

#[test]
fn title_from_events_no_heading() {
    let events = vec![
        MdEvent::Text("plain".to_string()),
        MdEvent::HeadingStart(2),
        MdEvent::Text("second level".to_string()),
        MdEvent::HeadingEnd(2),
    ];
    assert_eq!(extract_title(&events), "");
}

#[test]
fn title_from_events_unclosed_heading() {
    let events = vec![MdEvent::HeadingStart(1), MdEvent::Text("open".to_string())];
    assert_eq!(extract_title(&events), "open");
}

#[test]
fn title_of_single_heading() {
    assert_eq!(title_of("# Hello\n\nWorld\n"), "Hello");
}

#[test]
fn title_of_no_heading_is_empty() {
    assert_eq!(title_of("just a paragraph\n"), "");
    assert_eq!(title_of("## second-level only\n"), "");
    assert_eq!(title_of(""), "");
}

#[test]
fn title_of_heading_after_intro() {
    assert_eq!(title_of("intro paragraph\n\n# Real Title\n\nbody\n"), "Real Title");
}

#[test]
fn title_of_first_heading_wins() {
    assert_eq!(title_of("# First\n\n# Second\n"), "First");
}

#[test]
fn title_of_emphasis_keeps_last_run_only() {
    assert_eq!(title_of("# A *B* C\n"), " C");
}
