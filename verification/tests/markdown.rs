use ghwatch::ui::markdown::{markdown_lines, render_markdown, MdEvent, MdSpan};

fn texts(lines: &[Vec<MdSpan>]) -> Vec<Vec<String>> {
    lines.iter().map(|l| l.iter().map(|s| s.text.clone()).collect()).collect()
}

#[test]
fn test_markdown_heading_gets_marker_and_blank_line() {
    let lines = render_markdown("# Title");
    assert_eq!(texts(&lines), vec![vec!["# ".to_string(), "Title".to_string()], vec![]]);
    assert!(lines[0][0].heading);
    assert!(!lines[0][1].heading);
    assert!(lines[0][1].style.bold);
}

#[test]
fn test_markdown_second_level_heading_repeats_marker() {
    let lines = render_markdown("## Sub");
    assert_eq!(lines[0][0].text, "# # ");
    assert!(lines[0][0].heading);
}

#[test]
fn test_markdown_strong_and_emphasis_styles() {
    let lines = render_markdown("Hello **bold** and *it*");
    assert_eq!(
        texts(&lines),
        vec![
            vec!["Hello ".to_string(), "bold".to_string(), " and ".to_string(), "it".to_string()],
            vec![]
        ]
    );
    assert!(!lines[0][0].style.bold);
    assert!(lines[0][1].style.bold);
    assert!(!lines[0][2].style.bold);
    assert!(lines[0][3].style.italic);
}

#[test]
fn test_markdown_list_items_have_bullets_and_no_blank_lines() {
    let lines = render_markdown("- one\n- two");
    assert_eq!(
        texts(&lines),
        vec![
            vec![" • ".to_string(), "one".to_string()],
            vec![" • ".to_string(), "two".to_string()]
        ]
    );
}

#[test]
fn test_markdown_code_and_link_styles() {
    let lines = render_markdown("`x` [a](http://b)");
    assert_eq!(lines[0][0].text, "x");
    assert!(lines[0][0].style.code);
    let link = lines[0].iter().find(|s| s.text == "a").unwrap();
    assert!(link.style.link);
    assert!(!link.style.code);
}

#[test]
fn test_markdown_empty_text_has_no_lines() {
    assert!(render_markdown("").is_empty());
}

#[test]
fn test_markdown_paragraphs_separated_by_blank_lines() {
    let lines = render_markdown("first\n\nsecond");
    assert_eq!(
        texts(&lines),
        vec![vec!["first".to_string()], vec![], vec!["second".to_string()], vec![]]
    );
}

#[test]
fn test_markdown_lines_from_events_nested_item_paragraph() {
    let events = vec![
        MdEvent::Other,
        MdEvent::Item,
        MdEvent::Paragraph,
        MdEvent::Text("a".to_string()),
        MdEvent::Close,
        MdEvent::Close,
        MdEvent::Close,
        MdEvent::Paragraph,
        MdEvent::Strong,
        MdEvent::Text("b".to_string()),
        MdEvent::Close,
        MdEvent::Close,
        MdEvent::Close,
        MdEvent::Close,
    ];
    let lines = markdown_lines(&events);
    assert_eq!(
        texts(&lines),
        vec![vec![" • ".to_string(), "a".to_string()], vec!["b".to_string()], vec![]]
    );
    assert!(lines[1][0].style.bold);
}

#[test]
fn test_render_plain_text() {
    let lines = render_markdown("Hello world");
    assert!(!lines.is_empty());
    assert_eq!(lines[0][0].text, "Hello world");
}

#[test]
fn test_render_heading() {
    let lines = render_markdown("# Title");
    assert!(!lines.is_empty());
    assert_eq!(lines[0][0].text, "# ");
    assert_eq!(lines[0][1].text, "Title");
    // The marker is the highlighted (yellow, bold) heading span.
    assert!(lines[0][0].heading);
}

#[test]
fn test_render_bold() {
    let lines = render_markdown("Hello **bold** world");
    let bold_span = lines[0].iter().find(|s| s.text == "bold").expect("bold span not found");
    assert!(bold_span.style.bold);
}

#[test]
fn test_render_list() {
    let lines = render_markdown("- Item 1\n- Item 2");
    let has_bullet = lines.iter().any(|l| l.iter().any(|s| s.text.contains("•") || s.text.contains('-')));
    assert!(has_bullet, "List items should have bullets or markers");
}

#[test]
fn test_render_link() {
    let lines = render_markdown("[Google](https://google.com)");
    let link_span = lines[0].iter().find(|s| s.text.contains("Google")).expect("link text not found");
    // Links are drawn in blue.
    assert!(link_span.style.link);
}
