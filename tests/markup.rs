use mdserve::client::{update, view_content, FetchState, Msg, Shown};
use mdserve::markup::{rewrite, rewrite_event, ColumnAlign, Element, Level, MarkupEvent};
use mdserve::page::article_page;
use mdserve::render::{parse, render_article_html, render_markdown, serialize};

fn heading(level: Level, classes: &[&str]) -> MarkupEvent {
    MarkupEvent::Start(Element::Heading {
        level,
        id: None,
        classes: classes.iter().map(|c| c.to_string()).collect(),
    })
}

fn classes_of(e: &MarkupEvent) -> Vec<String> {
    match e {
        MarkupEvent::Start(Element::Heading { classes, .. }) => classes.clone(),
        MarkupEvent::Start(Element::Table { classes, .. }) => classes.clone(),
        _ => panic!("not a heading or table start"),
    }
}

#[test]
fn heading_classes_by_level() {
    assert_eq!(classes_of(&rewrite_event(heading(Level::H3, &[]))), vec!["title", "is-3"]);
    assert_eq!(classes_of(&rewrite_event(heading(Level::H1, &[]))), vec!["title", "is-1"]);
    assert_eq!(classes_of(&rewrite_event(heading(Level::H6, &[]))), vec!["title", "is-6"]);
    assert_eq!(
        classes_of(&rewrite_event(heading(Level::H2, &["intro"]))),
        vec!["intro", "title", "is-2"]
    );
}

#[test]
fn heading_keeps_level_and_id() {
    let e = MarkupEvent::Start(Element::Heading {
        level: Level::H4,
        id: Some("part".to_string()),
        classes: vec![],
    });
    match rewrite_event(e) {
        MarkupEvent::Start(Element::Heading { level, id, classes }) => {
            assert_eq!(level, Level::H4);
            assert_eq!(id, Some("part".to_string()));
            assert_eq!(classes, vec!["title", "is-4"]);
        }
        _ => panic!("heading lost"),
    }
}

#[test]
fn table_gains_table_class() {
    let e = MarkupEvent::Start(Element::Table {
        aligns: vec![ColumnAlign::Left, ColumnAlign::Right],
        classes: vec!["x".to_string()],
    });
    match rewrite_event(e) {
        MarkupEvent::Start(Element::Table { aligns, classes }) => {
            assert_eq!(aligns, vec![ColumnAlign::Left, ColumnAlign::Right]);
            assert_eq!(classes, vec!["x", "table"]);
        }
        _ => panic!("table lost"),
    }
}

#[test]
fn rewrite_keeps_length_and_order() {
    let events = vec![
        heading(Level::H1, &[]),
        MarkupEvent::Text("Hi".to_string()),
        MarkupEvent::End(Element::Paragraph),
        MarkupEvent::Rule,
        MarkupEvent::Start(Element::Table { aligns: vec![], classes: vec![] }),
        MarkupEvent::End(Element::Heading { level: Level::H1, id: None, classes: vec![] }),
    ];
    let r = rewrite(events);
    assert_eq!(r.len(), 6);
    assert!(matches!(r[0], MarkupEvent::Start(Element::Heading { .. })));
    assert!(matches!(&r[1], MarkupEvent::Text(t) if t == "Hi"));
    assert!(matches!(r[2], MarkupEvent::End(Element::Paragraph)));
    assert!(matches!(r[3], MarkupEvent::Rule));
    assert_eq!(classes_of(&r[4]), vec!["table"]);
    assert!(matches!(&r[5], MarkupEvent::End(Element::Heading { classes, .. }) if classes.is_empty()));
    assert!(rewrite(vec![]).is_empty());
}

#[test]
fn parse_gives_heading_events() {
    let events = parse("# Hi");
    assert_eq!(events.len(), 3);
    assert!(matches!(events[0], MarkupEvent::Start(Element::Heading { level: Level::H1, .. })));
    assert!(matches!(&events[1], MarkupEvent::Text(t) if t == "Hi"));
    assert!(matches!(events[2], MarkupEvent::End(Element::Heading { .. })));
}

#[test]
fn parse_enables_strikethrough() {
    let events = parse("~~gone~~");
    assert!(events.iter().any(|e| matches!(e, MarkupEvent::Start(Element::Strikethrough))));
}

#[test]
fn serialize_escapes_text() {
    let events = vec![MarkupEvent::Text("<script>alert(1)</script>".to_string())];
    let html = serialize(events);
    assert!(!html.contains("<script>"));
    assert!(html.contains("&lt;script&gt;"));
}

#[test]
fn serialize_is_deterministic() {
    let make = || vec![heading(Level::H2, &["a"]), MarkupEvent::Text("x & y".to_string())];
    assert_eq!(serialize(make()), serialize(make()));
}

#[test]
fn render_heading_with_classes() {
    assert_eq!(render_article_html("# Hi"), "<h1 class=\"title is-1\">Hi</h1>\n");
    assert_eq!(render_markdown("# Hi"), "<h1>Hi</h1>\n");
}

#[test]
fn render_table_with_class() {
    let text = "| a | b |\n|:--|--:|\n| 1 | 2 |\n";
    let html = render_article_html(text);
    assert!(html.contains("<table class=\"table\">"));
    assert!(html.contains("<th style=\"text-align: left\">a</th>"));
    assert!(html.contains("<td style=\"text-align: right\">2</td>"));
    assert!(html.contains("</tbody></table>"));
    let plain = render_markdown(text);
    assert!(plain.contains("<table>"));
    assert!(plain.contains("<td style=\"text-align: left\">1</td>"));
}

#[test]
fn table_classes_are_escaped() {
    let events = vec![
        MarkupEvent::Start(Element::Table { aligns: vec![], classes: vec!["a\"b".to_string(), "c".to_string()] }),
        MarkupEvent::End(Element::Table { aligns: vec![], classes: vec![] }),
    ];
    let html = serialize(events);
    assert!(html.starts_with("<table class=\"a&quot;b c\">"));
}

#[test]
fn article_page_fills_title_and_html() {
    let p = article_page("# Hi");
    assert_eq!(p.title, "test markdown");
    assert_eq!(p.markdown, "<h1 class=\"title is-1\">Hi</h1>\n");
}

#[test]
fn client_update_and_view() {
    let mut s: FetchState<String> = FetchState::NotFetching;
    let u = update(&mut s, Msg::GetMarkdown);
    assert!(u.fetch && !u.redraw);
    assert!(matches!(s, FetchState::NotFetching));
    assert!(matches!(view_content(&s), Shown::Message(m) if m == "Getting markdown..."));
    let u = update(&mut s, Msg::SetMarkdownFetchState(FetchState::Success("*a*".to_string())));
    assert!(u.redraw && !u.fetch);
    assert!(matches!(view_content(&s), Shown::Rendered(h) if h == "<p><em>a</em></p>\n"));
    let u = update(&mut s, Msg::GetError);
    assert!(u.fetch && !u.redraw);
    update(&mut s, Msg::SetMarkdownFetchState(FetchState::Failed("down".to_string())));
    assert!(matches!(view_content(&s), Shown::Message(m) if m == "404"));
    update(&mut s, Msg::SetMarkdownFetchState(FetchState::Fetching));
    assert!(matches!(view_content(&s), Shown::Message(m) if m == "Getting markdown..."));
}
