//! Parsing markdown into events and serializing events to HTML, through
//! pulldown-cmark.
use vstd::prelude::*;
use pulldown_cmark as md;
use vstd::string::StringExecFns;
use crate::markup::{ColumnAlign, CodeKind, MarkupEvent, MarkupEventV, Level, LinkKind, Element, ElementV, events_view, rewritten};
use crate::markup::rewrite;
use crate::tree::views;

verus! {

// pulldown-cmark's string type stays opaque; its event, tag and enum types
// are read as the crate declares them, so that verified code converts
// between them and the library's own events.
#[verifier::external_type_specification]
#[verifier::external_body]
pub struct ExCowStr<'a>(md::CowStr<'a>);

#[verifier::external_type_specification]
pub struct ExMdHeadingLevel(md::HeadingLevel);

#[verifier::external_type_specification]
pub struct ExMdAlignment(md::Alignment);

#[verifier::external_type_specification]
pub struct ExMdLinkType(md::LinkType);

#[verifier::external_type_specification]
pub struct ExMdCodeBlockKind<'a>(md::CodeBlockKind<'a>);

#[verifier::external_type_specification]
pub struct ExMdTag<'a>(md::Tag<'a>);

#[verifier::external_type_specification]
pub struct ExMdEvent<'a>(md::Event<'a>);

/// Relies on CowStr::into_string: the owned text of a pulldown-cmark string.
#[verifier::external_body]
fn cow_into_string(c: md::CowStr<'_>) -> String {
    c.into_string()
}

/// Relies on `From<&str> for CowStr`: a pulldown-cmark string borrowing `s`.
#[verifier::external_body]
fn cow_from_str<'a>(s: &'a str) -> md::CowStr<'a> {
    md::CowStr::from(s)
}

fn level_from_md(l: md::HeadingLevel) -> Level {
    match l {
        md::HeadingLevel::H1 => Level::H1,
        md::HeadingLevel::H2 => Level::H2,
        md::HeadingLevel::H3 => Level::H3,
        md::HeadingLevel::H4 => Level::H4,
        md::HeadingLevel::H5 => Level::H5,
        md::HeadingLevel::H6 => Level::H6,
    }
}

fn align_from_md(a: md::Alignment) -> ColumnAlign {
    match a {
        md::Alignment::None => ColumnAlign::Unaligned,
        md::Alignment::Left => ColumnAlign::Left,
        md::Alignment::Center => ColumnAlign::Center,
        md::Alignment::Right => ColumnAlign::Right,
    }
}

fn link_from_md(t: md::LinkType) -> LinkKind {
    match t {
        md::LinkType::Inline => LinkKind::Inline,
        md::LinkType::Reference => LinkKind::Reference,
        md::LinkType::ReferenceUnknown => LinkKind::ReferenceUnknown,
        md::LinkType::Collapsed => LinkKind::Collapsed,
        md::LinkType::CollapsedUnknown => LinkKind::CollapsedUnknown,
        md::LinkType::Shortcut => LinkKind::Shortcut,
        md::LinkType::ShortcutUnknown => LinkKind::ShortcutUnknown,
        md::LinkType::Autolink => LinkKind::Autolink,
        md::LinkType::Email => LinkKind::Email,
    }
}

fn tag_from_md(t: md::Tag<'_>) -> Element {
    match t {
        md::Tag::Paragraph => Element::Paragraph,
        md::Tag::Heading(level, id, classes) => {
            let id = match id {
                Some(s) => Some(s.to_owned()),
                None => None,
            };
            let mut c: Vec<String> = Vec::new();
            let mut i: usize = 0;
            while i < classes.len()
                decreases classes@.len() - i,
            {
                c.push(classes[i].to_owned());
                i = i + 1;
            }
            Element::Heading { level: level_from_md(level), id, classes: c }
        },
        md::Tag::BlockQuote => Element::BlockQuote,
        md::Tag::CodeBlock(md::CodeBlockKind::Indented) => Element::CodeBlock(CodeKind::Indented),
        md::Tag::CodeBlock(md::CodeBlockKind::Fenced(s)) => Element::CodeBlock(
            CodeKind::Fenced(cow_into_string(s)),
        ),
        md::Tag::List(n) => Element::List(n),
        md::Tag::Item => Element::Item,
        md::Tag::FootnoteDefinition(s) => Element::FootnoteDefinition(cow_into_string(s)),
        md::Tag::Table(aligns) => {
            let mut a: Vec<ColumnAlign> = Vec::new();
            let mut i: usize = 0;
            while i < aligns.len()
                decreases aligns@.len() - i,
            {
                a.push(align_from_md(aligns[i]));
                i = i + 1;
            }
            Element::Table { aligns: a, classes: Vec::new() }
        },
        md::Tag::TableHead => Element::TableHead,
        md::Tag::TableRow => Element::TableRow,
        md::Tag::TableCell => Element::TableCell,
        md::Tag::Emphasis => Element::Emphasis,
        md::Tag::Strong => Element::Strong,
        md::Tag::Strikethrough => Element::Strikethrough,
        md::Tag::Link(t, d, x) => Element::Link(link_from_md(t), cow_into_string(d), cow_into_string(x)),
        md::Tag::Image(t, d, x) => Element::Image(link_from_md(t), cow_into_string(d), cow_into_string(x)),
    }
}

/// The library's event for a pulldown-cmark event.
pub fn event_from_md(e: md::Event<'_>) -> MarkupEvent {
    match e {
        md::Event::Start(t) => MarkupEvent::Start(tag_from_md(t)),
        md::Event::End(t) => MarkupEvent::End(tag_from_md(t)),
        md::Event::Text(s) => MarkupEvent::Text(cow_into_string(s)),
        md::Event::Code(s) => MarkupEvent::Code(cow_into_string(s)),
        md::Event::Html(s) => MarkupEvent::Html(cow_into_string(s)),
        md::Event::FootnoteReference(s) => MarkupEvent::FootnoteReference(cow_into_string(s)),
        md::Event::SoftBreak => MarkupEvent::SoftBreak,
        md::Event::HardBreak => MarkupEvent::HardBreak,
        md::Event::Rule => MarkupEvent::Rule,
        md::Event::TaskListMarker(b) => MarkupEvent::TaskListMarker(b),
    }
}

/// What pulldown-cmark's parser yields for a text, with strikethrough and
/// tables enabled.
pub uninterp spec fn parsed_of(text: Seq<char>) -> Seq<MarkupEventV>;

/// Relies on pulldown_cmark::Parser::new_ext with strikethrough and tables
/// enabled: the events of the text, which depend on the text alone.
#[verifier::external_body]
fn md_parse(text: &str) -> (r: Vec<MarkupEvent>)
    ensures
        events_view(r@) == parsed_of(text@),
{
    let options = md::Options::ENABLE_STRIKETHROUGH | md::Options::ENABLE_TABLES;
    md::Parser::new_ext(text, options).map(event_from_md).collect()
}

/// Parses markdown text into events, with strikethrough and tables enabled.
/// Parsing never fails: what the grammar does not recognise stays text.
pub fn parse(text: &str) -> (r: Vec<MarkupEvent>)
    ensures
        events_view(r@) == parsed_of(text@),
{
    md_parse(text)
}

fn level_to_md(l: Level) -> md::HeadingLevel {
    match l {
        Level::H1 => md::HeadingLevel::H1,
        Level::H2 => md::HeadingLevel::H2,
        Level::H3 => md::HeadingLevel::H3,
        Level::H4 => md::HeadingLevel::H4,
        Level::H5 => md::HeadingLevel::H5,
        Level::H6 => md::HeadingLevel::H6,
    }
}

fn align_to_md(a: ColumnAlign) -> md::Alignment {
    match a {
        ColumnAlign::Unaligned => md::Alignment::None,
        ColumnAlign::Left => md::Alignment::Left,
        ColumnAlign::Center => md::Alignment::Center,
        ColumnAlign::Right => md::Alignment::Right,
    }
}

fn link_to_md(t: LinkKind) -> md::LinkType {
    match t {
        LinkKind::Inline => md::LinkType::Inline,
        LinkKind::Reference => md::LinkType::Reference,
        LinkKind::ReferenceUnknown => md::LinkType::ReferenceUnknown,
        LinkKind::Collapsed => md::LinkType::Collapsed,
        LinkKind::CollapsedUnknown => md::LinkType::CollapsedUnknown,
        LinkKind::Shortcut => md::LinkType::Shortcut,
        LinkKind::ShortcutUnknown => md::LinkType::ShortcutUnknown,
        LinkKind::Autolink => md::LinkType::Autolink,
        LinkKind::Email => md::LinkType::Email,
    }
}

fn cow(s: &String) -> md::CowStr<'_> {
    cow_from_str(s.as_str())
}

fn tag_to_md(t: &Element) -> md::Tag<'_> {
    match t {
        Element::Paragraph => md::Tag::Paragraph,
        Element::Heading { level, id, classes } => {
            let id = match id {
                Some(s) => Some(s.as_str()),
                None => None,
            };
            let mut c: Vec<&str> = Vec::new();
            let mut i: usize = 0;
            while i < classes.len()
                decreases classes@.len() - i,
            {
                c.push(classes[i].as_str());
                i = i + 1;
            }
            md::Tag::Heading(level_to_md(*level), id, c)
        },
        Element::BlockQuote => md::Tag::BlockQuote,
        Element::CodeBlock(CodeKind::Indented) => md::Tag::CodeBlock(md::CodeBlockKind::Indented),
        Element::CodeBlock(CodeKind::Fenced(s)) => md::Tag::CodeBlock(
            md::CodeBlockKind::Fenced(cow(s)),
        ),
        Element::List(n) => md::Tag::List(*n),
        Element::Item => md::Tag::Item,
        Element::FootnoteDefinition(s) => md::Tag::FootnoteDefinition(cow(s)),
        Element::Table { aligns, .. } => {
            let mut a: Vec<md::Alignment> = Vec::new();
            let mut i: usize = 0;
            while i < aligns.len()
                decreases aligns@.len() - i,
            {
                a.push(align_to_md(aligns[i]));
                i = i + 1;
            }
            md::Tag::Table(a)
        },
        Element::TableHead => md::Tag::TableHead,
        Element::TableRow => md::Tag::TableRow,
        Element::TableCell => md::Tag::TableCell,
        Element::Emphasis => md::Tag::Emphasis,
        Element::Strong => md::Tag::Strong,
        Element::Strikethrough => md::Tag::Strikethrough,
        Element::Link(t, d, x) => md::Tag::Link(link_to_md(*t), cow(d), cow(x)),
        Element::Image(t, d, x) => md::Tag::Image(link_to_md(*t), cow(d), cow(x)),
    }
}

/// The pulldown-cmark event for one of the library's events.
pub fn event_to_md(e: &MarkupEvent) -> md::Event<'_> {
    match e {
        MarkupEvent::Start(t) => md::Event::Start(tag_to_md(t)),
        MarkupEvent::End(t) => md::Event::End(tag_to_md(t)),
        MarkupEvent::Text(s) => md::Event::Text(cow(s)),
        MarkupEvent::Code(s) => md::Event::Code(cow(s)),
        MarkupEvent::Html(s) => md::Event::Html(cow(s)),
        MarkupEvent::FootnoteReference(s) => md::Event::FootnoteReference(cow(s)),
        MarkupEvent::SoftBreak => md::Event::SoftBreak,
        MarkupEvent::HardBreak => md::Event::HardBreak,
        MarkupEvent::Rule => md::Event::Rule,
        MarkupEvent::TaskListMarker(b) => md::Event::TaskListMarker(*b),
    }
}

/// What pulldown-cmark's HTML writer writes for a sequence of events.
pub uninterp spec fn html_of(events: Seq<MarkupEventV>) -> Seq<char>;

/// Relies on pulldown_cmark::html::push_html: the HTML of the events, which
/// depends on the events alone.
#[verifier::external_body]
fn md_push_html(events: &Vec<MarkupEvent>) -> (r: String)
    ensures
        r@ == html_of(events_view(events@)),
{
    let mut r = String::new();
    md::html::push_html(&mut r, events.iter().map(event_to_md));
    r
}

/// What pulldown-cmark's escaping makes of a text placed in HTML.
pub uninterp spec fn escaped_of(text: Seq<char>) -> Seq<char>;

/// Relies on pulldown_cmark::escape::escape_html: the text with the
/// characters that HTML gives a meaning to replaced by entities. Writing
/// into a `String` cannot fail.
#[verifier::external_body]
fn md_escape_html(text: &str) -> (r: String)
    ensures
        r@ == escaped_of(text@),
{
    let mut r = String::new();
    let _ = md::escape::escape_html(&mut r, text);
    r
}

/// Where the serializer stands in the tables of a document: the column
/// alignments of the last table opened, whether it is in a table head, and
/// the index of the next cell in the row.
pub struct TableCursor {
    pub aligns: Seq<ColumnAlign>,
    pub in_head: bool,
    pub cell: nat,
}

/// The cursor before the first event.
pub open spec fn initial_cursor() -> TableCursor {
    TableCursor { aligns: Seq::empty(), in_head: false, cell: 0 }
}

/// The cursor after event `e`.
pub open spec fn advance(c: TableCursor, e: MarkupEventV) -> TableCursor {
    match e {
        MarkupEventV::Start(ElementV::Table(a, _)) => TableCursor { aligns: a, ..c },
        MarkupEventV::Start(ElementV::TableHead) => TableCursor { in_head: true, cell: 0, ..c },
        MarkupEventV::Start(ElementV::TableRow) => TableCursor { cell: 0, ..c },
        MarkupEventV::End(ElementV::TableHead) => TableCursor { in_head: false, ..c },
        MarkupEventV::End(ElementV::TableCell) => TableCursor { cell: c.cell + 1, ..c },
        _ => c,
    }
}

/// The cursor after a sequence of events.
pub open spec fn cursor_after(es: Seq<MarkupEventV>) -> TableCursor
    decreases es.len(),
{
    if es.len() == 0 {
        initial_cursor()
    } else {
        advance(cursor_after(es.drop_last()), es.last())
    }
}

/// The escaped classes, separated by single spaces.
pub open spec fn class_list(classes: Seq<Seq<char>>) -> Seq<char>
    decreases classes.len(),
{
    if classes.len() == 0 {
        Seq::empty()
    } else if classes.len() == 1 {
        escaped_of(classes[0])
    } else {
        class_list(classes.drop_last()) + seq![' '] + escaped_of(classes.last())
    }
}

/// The opening tag of a table with the given classes.
pub open spec fn table_open(classes: Seq<Seq<char>>) -> Seq<char> {
    if classes.len() == 0 {
        "<table>"@
    } else {
        "<table class=\""@ + class_list(classes) + "\">"@
    }
}

/// The opening tag of a table cell at cursor `c`.
pub open spec fn cell_open(c: TableCursor) -> Seq<char> {
    let name = if c.in_head {
        "<th"@
    } else {
        "<td"@
    };
    let style = if c.cell < c.aligns.len() {
        match c.aligns[c.cell as int] {
            ColumnAlign::Left => " style=\"text-align: left\">"@,
            ColumnAlign::Center => " style=\"text-align: center\">"@,
            ColumnAlign::Right => " style=\"text-align: right\">"@,
            ColumnAlign::Unaligned => ">"@,
        }
    } else {
        ">"@
    };
    name + style
}

/// What the serializer hands to the HTML writer for event `e` at cursor
/// `c`: a table start becomes its opening tag with its classes, a cell start
/// its opening tag with its column's alignment; other events are kept.
pub open spec fn lower_event(c: TableCursor, e: MarkupEventV) -> MarkupEventV {
    match e {
        MarkupEventV::Start(ElementV::Table(_, classes)) => MarkupEventV::Html(table_open(classes)),
        MarkupEventV::Start(ElementV::TableCell) => MarkupEventV::Html(cell_open(c)),
        _ => e,
    }
}

/// What the serializer hands to the HTML writer for a sequence of events.
pub open spec fn lowered(es: Seq<MarkupEventV>) -> Seq<MarkupEventV>
    decreases es.len(),
{
    if es.len() == 0 {
        Seq::empty()
    } else {
        lowered(es.drop_last()).push(lower_event(cursor_after(es.drop_last()), es.last()))
    }
}

/// The serializer's position in the tables of a document, as it runs.
struct Cursor {
    aligns: Vec<ColumnAlign>,
    in_head: bool,
    cell: usize,
}

impl View for Cursor {
    type V = TableCursor;

    closed spec fn view(&self) -> TableCursor {
        TableCursor { aligns: self.aligns@, in_head: self.in_head, cell: self.cell as nat }
    }
}

fn join_classes(classes: &Vec<String>) -> (r: String)
    ensures
        r@ == class_list(views(classes@)),
{
    let mut r = String::new();
    let mut i: usize = 0;
    while i < classes.len()
        invariant
            i <= classes@.len(),
            r@ == class_list(views(classes@).subrange(0, i as int)),
        decreases classes@.len() - i,
    {
        let e = md_escape_html(classes[i].as_str());
        proof {
            reveal_strlit(" ");
            let p = views(classes@).subrange(0, i as int + 1);
            assert(p.drop_last() =~= views(classes@).subrange(0, i as int));
            assert(p.last() == classes@[i as int]@);
        }
        if i > 0 {
            r.append(" ");
        }
        r.append(e.as_str());
        assert(r@ =~= class_list(views(classes@).subrange(0, i as int + 1)));
        i = i + 1;
    }
    assert(views(classes@).subrange(0, classes@.len() as int) =~= views(classes@));
    r
}

fn table_tag(classes: &Vec<String>) -> (r: String)
    ensures
        r@ == table_open(views(classes@)),
{
    let mut r = String::new();
    if classes.len() == 0 {
        r.append("<table>");
    } else {
        r.append("<table class=\"");
        let list = join_classes(classes);
        r.append(list.as_str());
        r.append("\">");
    }
    proof {
        reveal_strlit("<table>");
        reveal_strlit("<table class=\"");
        reveal_strlit("\">");
        assert(r@ =~= table_open(views(classes@)));
    }
    r
}

fn cell_tag(c: &Cursor) -> (r: String)
    ensures
        r@ == cell_open(c@),
{
    let mut r = String::new();
    if c.in_head {
        r.append("<th");
    } else {
        r.append("<td");
    }
    if c.cell < c.aligns.len() {
        match c.aligns[c.cell] {
            ColumnAlign::Left => r.append(" style=\"text-align: left\">"),
            ColumnAlign::Center => r.append(" style=\"text-align: center\">"),
            ColumnAlign::Right => r.append(" style=\"text-align: right\">"),
            ColumnAlign::Unaligned => r.append(">"),
        }
    } else {
        r.append(">");
    }
    proof {
        reveal_strlit("<th");
        reveal_strlit("<td");
        reveal_strlit(" style=\"text-align: left\">");
        reveal_strlit(" style=\"text-align: center\">");
        reveal_strlit(" style=\"text-align: right\">");
        reveal_strlit(">");
        assert(r@ =~= cell_open(c@));
    }
    r
}

fn lower_one(c: &mut Cursor, e: MarkupEvent) -> (r: MarkupEvent)
    requires
        old(c).cell < usize::MAX,
    ensures
        r@ == lower_event(old(c)@, e@),
        final(c)@ == advance(old(c)@, e@),
        final(c).cell <= old(c).cell + 1,
{
    match e {
        MarkupEvent::Start(Element::Table { aligns, classes }) => {
            let tag = table_tag(&classes);
            c.aligns = aligns;
            MarkupEvent::Html(tag)
        },
        MarkupEvent::Start(Element::TableCell) => MarkupEvent::Html(cell_tag(c)),
        MarkupEvent::Start(Element::TableHead) => {
            c.in_head = true;
            c.cell = 0;
            e
        },
        MarkupEvent::Start(Element::TableRow) => {
            c.cell = 0;
            e
        },
        MarkupEvent::End(Element::TableHead) => {
            c.in_head = false;
            e
        },
        MarkupEvent::End(Element::TableCell) => {
            c.cell = c.cell + 1;
            e
        },
        other => other,
    }
}

fn lower(events: Vec<MarkupEvent>) -> (r: Vec<MarkupEvent>)
    ensures
        events_view(r@) == lowered(events_view(events@)),
{
    let ghost n = events@.len();
    let ghost ev = events_view(events@);
    let mut src = events;
    let mut rest: Vec<MarkupEvent> = Vec::new();
    while src.len() > 0
        invariant
            src@.len() + rest@.len() == n,
            n == events@.len(),
            forall|i: int| 0 <= i < src@.len() ==> #[trigger] src@[i] == events@[i],
            forall|i: int|
                0 <= i < rest@.len() ==> #[trigger] rest@[i] == events@[n - 1 - i],
        decreases src@.len(),
    {
        let e = src.pop().unwrap();
        rest.push(e);
    }
    let total: usize = rest.len();
    let mut r: Vec<MarkupEvent> = Vec::new();
    let mut c = Cursor { aligns: Vec::new(), in_head: false, cell: 0 };
    assert(c@ =~= initial_cursor());
    assert(ev.subrange(0, 0) =~= Seq::<MarkupEventV>::empty());
    assert(events_view(r@) =~= Seq::<MarkupEventV>::empty());
    while rest.len() > 0
        invariant
            r@.len() + rest@.len() == n,
            n == events@.len(),
            n == total,
            ev == events_view(events@),
            events_view(r@) == lowered(ev.subrange(0, r@.len() as int)),
            c@ == cursor_after(ev.subrange(0, r@.len() as int)),
            c.cell <= r@.len(),
            forall|i: int|
                0 <= i < rest@.len() ==> #[trigger] rest@[i] == events@[n - 1 - i],
        decreases rest@.len(),
    {
        let ghost k = r@.len() as int;
        let e = rest.pop().unwrap();
        assert(e == events@[k]);
        let l = lower_one(&mut c, e);
        let ghost before = r@;
        r.push(l);
        proof {
            let p = ev.subrange(0, k + 1);
            assert(p.drop_last() =~= ev.subrange(0, k));
            assert(p.last() == e@);
            assert(events_view(r@) =~= events_view(before).push(l@));
        }
    }
    assert(ev.subrange(0, n as int) =~= ev);
    r
}

/// Serializes events to HTML. A table start is written with its classes and
/// a cell start with its column's alignment; everything else is written by
/// pulldown-cmark's HTML writer, which escapes text. The result depends on
/// the events alone.
pub fn serialize(events: Vec<MarkupEvent>) -> (r: String)
    ensures
        r@ == html_of(lowered(events_view(events@))),
{
    let l = lower(events);
    md_push_html(&l)
}

/// Serializing is a function of the events' model: two event sequences
/// that agree on it serialize to the same text.
pub proof fn lemma_serialize_deterministic(a: Seq<MarkupEvent>, b: Seq<MarkupEvent>)
    requires
        events_view(a) == events_view(b),
    ensures
        html_of(lowered(events_view(a))) == html_of(lowered(events_view(b))),
{
}

/// The HTML of a markdown text: parsed, rewritten to carry the presentation
/// classes, and serialized.
pub fn render_article_html(text: &str) -> (r: String)
    ensures
        r@ == html_of(lowered(parsed_of(text@).map_values(|e: MarkupEventV| rewritten(e)))),
{
    let events = parse(text);
    let events = rewrite(events);
    serialize(events)
}

/// The HTML of a markdown text as parsed, without presentation classes.
pub fn render_markdown(text: &str) -> (r: String)
    ensures
        r@ == html_of(lowered(parsed_of(text@))),
{
    serialize(parse(text))
}

} // verus!
