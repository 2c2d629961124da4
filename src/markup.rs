//! Markup events, and the rewriter that gives headings and tables their
//! presentation classes.
use vstd::prelude::*;
use crate::tree::views;

verus! {

/// The level of a heading, one to six.
#[derive(Clone, Copy, PartialEq, Eq, Structural, Debug)]
pub enum Level {
    H1,
    H2,
    H3,
    H4,
    H5,
    H6,
}

/// The alignment of a table column.
#[derive(Clone, Copy, PartialEq, Eq, Structural, Debug)]
pub enum ColumnAlign {
    /// No alignment was asked for.
    Unaligned,
    Left,
    Center,
    Right,
}

/// How a code block was written; a fenced one carries its info string.
#[derive(Debug)]
pub enum CodeKind {
    Indented,
    Fenced(String),
}

/// How a link or image was written.
#[derive(Clone, Copy, PartialEq, Eq, Structural, Debug)]
pub enum LinkKind {
    Inline,
    Reference,
    ReferenceUnknown,
    Collapsed,
    CollapsedUnknown,
    Shortcut,
    ShortcutUnknown,
    Autolink,
    Email,
}

/// A structural element that a start or end event opens or closes.
#[derive(Debug)]
pub enum Element {
    Paragraph,
    /// A heading, with its optional fragment identifier and its classes.
    Heading { level: Level, id: Option<String>, classes: Vec<String> },
    BlockQuote,
    CodeBlock(CodeKind),
    /// A list; an ordered one carries the number of its first item.
    List(Option<u64>),
    Item,
    FootnoteDefinition(String),
    /// A table, with the alignment of each column and its classes.
    Table { aligns: Vec<ColumnAlign>, classes: Vec<String> },
    TableHead,
    TableRow,
    TableCell,
    Emphasis,
    Strong,
    Strikethrough,
    /// A link: how it was written, its destination and its title.
    Link(LinkKind, String, String),
    /// An image: how it was written, its source and its title.
    Image(LinkKind, String, String),
}

/// One event of a parsed document.
#[derive(Debug)]
pub enum MarkupEvent {
    Start(Element),
    End(Element),
    Text(String),
    Code(String),
    Html(String),
    FootnoteReference(String),
    SoftBreak,
    HardBreak,
    Rule,
    TaskListMarker(bool),
}

/// The mathematical model of a tag: text as character sequences.
pub enum ElementV {
    Paragraph,
    Heading(Level, Option<Seq<char>>, Seq<Seq<char>>),
    BlockQuote,
    /// A code block; the info string of a fenced one, `None` for an indented one.
    CodeBlock(Option<Seq<char>>),
    List(Option<u64>),
    Item,
    FootnoteDefinition(Seq<char>),
    Table(Seq<ColumnAlign>, Seq<Seq<char>>),
    TableHead,
    TableRow,
    TableCell,
    Emphasis,
    Strong,
    Strikethrough,
    Link(LinkKind, Seq<char>, Seq<char>),
    Image(LinkKind, Seq<char>, Seq<char>),
}

/// The mathematical model of an event.
pub enum MarkupEventV {
    Start(ElementV),
    End(ElementV),
    Text(Seq<char>),
    Code(Seq<char>),
    Html(Seq<char>),
    FootnoteReference(Seq<char>),
    SoftBreak,
    HardBreak,
    Rule,
    TaskListMarker(bool),
}

pub open spec fn opt_view(o: Option<String>) -> Option<Seq<char>> {
    match o {
        Some(s) => Some(s@),
        None => None,
    }
}

impl View for Element {
    type V = ElementV;

    open spec fn view(&self) -> ElementV {
        match self {
            Element::Paragraph => ElementV::Paragraph,
            Element::Heading { level, id, classes } => ElementV::Heading(
                *level,
                opt_view(*id),
                views(classes@),
            ),
            Element::BlockQuote => ElementV::BlockQuote,
            Element::CodeBlock(k) => ElementV::CodeBlock(
                match k {
                    CodeKind::Indented => None,
                    CodeKind::Fenced(s) => Some(s@),
                },
            ),
            Element::List(n) => ElementV::List(*n),
            Element::Item => ElementV::Item,
            Element::FootnoteDefinition(s) => ElementV::FootnoteDefinition(s@),
            Element::Table { aligns, classes } => ElementV::Table(aligns@, views(classes@)),
            Element::TableHead => ElementV::TableHead,
            Element::TableRow => ElementV::TableRow,
            Element::TableCell => ElementV::TableCell,
            Element::Emphasis => ElementV::Emphasis,
            Element::Strong => ElementV::Strong,
            Element::Strikethrough => ElementV::Strikethrough,
            Element::Link(t, d, x) => ElementV::Link(*t, d@, x@),
            Element::Image(t, d, x) => ElementV::Image(*t, d@, x@),
        }
    }
}

impl View for MarkupEvent {
    type V = MarkupEventV;

    open spec fn view(&self) -> MarkupEventV {
        match self {
            MarkupEvent::Start(t) => MarkupEventV::Start(t@),
            MarkupEvent::End(t) => MarkupEventV::End(t@),
            MarkupEvent::Text(s) => MarkupEventV::Text(s@),
            MarkupEvent::Code(s) => MarkupEventV::Code(s@),
            MarkupEvent::Html(s) => MarkupEventV::Html(s@),
            MarkupEvent::FootnoteReference(s) => MarkupEventV::FootnoteReference(s@),
            MarkupEvent::SoftBreak => MarkupEventV::SoftBreak,
            MarkupEvent::HardBreak => MarkupEventV::HardBreak,
            MarkupEvent::Rule => MarkupEventV::Rule,
            MarkupEvent::TaskListMarker(b) => MarkupEventV::TaskListMarker(*b),
        }
    }
}

/// The model of each event of a sequence.
pub open spec fn events_view(es: Seq<MarkupEvent>) -> Seq<MarkupEventV> {
    es.map_values(|e: MarkupEvent| e@)
}

/// The classes a heading of level `l` gains.
pub open spec fn heading_classes(l: Level) -> Seq<Seq<char>> {
    let n = match l {
        Level::H1 => '1',
        Level::H2 => '2',
        Level::H3 => '3',
        Level::H4 => '4',
        Level::H5 => '5',
        Level::H6 => '6',
    };
    seq![seq!['t', 'i', 't', 'l', 'e'], seq!['i', 's', '-', n]]
}

/// The class a table gains.
pub open spec fn table_class() -> Seq<char> {
    seq!['t', 'a', 'b', 'l', 'e']
}

/// Whether `r` is what rewriting makes of `e`: a heading start gains its
/// level's classes, a table start gains the table class, both after the
/// classes they had; everything else is left as it is.
pub open spec fn rewrites_to(e: MarkupEvent, r: MarkupEvent) -> bool {
    match e {
        MarkupEvent::Start(Element::Heading { level, id, classes }) => match r {
            MarkupEvent::Start(Element::Heading { level: l2, id: id2, classes: c2 }) => l2 == level && id2
                == id && views(c2@) == views(classes@) + heading_classes(level),
            _ => false,
        },
        MarkupEvent::Start(Element::Table { aligns, classes }) => match r {
            MarkupEvent::Start(Element::Table { aligns: a2, classes: c2 }) => a2@ == aligns@ && views(c2@)
                == views(classes@).push(table_class()),
            _ => false,
        },
        _ => r == e,
    }
}

/// The model of what rewriting makes of an event.
pub open spec fn rewritten(e: MarkupEventV) -> MarkupEventV {
    match e {
        MarkupEventV::Start(ElementV::Heading(level, id, classes)) => MarkupEventV::Start(
            ElementV::Heading(level, id, classes + heading_classes(level)),
        ),
        MarkupEventV::Start(ElementV::Table(aligns, classes)) => MarkupEventV::Start(
            ElementV::Table(aligns, classes.push(table_class())),
        ),
        _ => e,
    }
}

/// The relation between an event and its rewrite determines the rewrite's model.
pub proof fn lemma_rewrites_to_model(e: MarkupEvent, r: MarkupEvent)
    requires
        rewrites_to(e, r),
    ensures
        r@ == rewritten(e@),
{
}

/// Which kind of element a tag is.
pub open spec fn tag_kind(t: Element) -> nat {
    match t {
        Element::Paragraph => 0,
        Element::Heading { .. } => 1,
        Element::BlockQuote => 2,
        Element::CodeBlock(_) => 3,
        Element::List(_) => 4,
        Element::Item => 5,
        Element::FootnoteDefinition(_) => 6,
        Element::Table { .. } => 7,
        Element::TableHead => 8,
        Element::TableRow => 9,
        Element::TableCell => 10,
        Element::Emphasis => 11,
        Element::Strong => 12,
        Element::Strikethrough => 13,
        Element::Link(..) => 14,
        Element::Image(..) => 15,
    }
}

/// Which kind of event `e` is, together with the kind of its tag.
pub open spec fn event_kind(e: MarkupEvent) -> (nat, nat) {
    match e {
        MarkupEvent::Start(t) => (0, tag_kind(t)),
        MarkupEvent::End(t) => (1, tag_kind(t)),
        MarkupEvent::Text(_) => (2, 0),
        MarkupEvent::Code(_) => (3, 0),
        MarkupEvent::Html(_) => (4, 0),
        MarkupEvent::FootnoteReference(_) => (5, 0),
        MarkupEvent::SoftBreak => (6, 0),
        MarkupEvent::HardBreak => (7, 0),
        MarkupEvent::Rule => (8, 0),
        MarkupEvent::TaskListMarker(_) => (9, 0),
    }
}

fn level_class(l: Level) -> (r: String)
    ensures
        r@ == heading_classes(l)[1],
{
    let s = match l {
        Level::H1 => "is-1",
        Level::H2 => "is-2",
        Level::H3 => "is-3",
        Level::H4 => "is-4",
        Level::H5 => "is-5",
        Level::H6 => "is-6",
    };
    proof {
        reveal_strlit("is-1");
        reveal_strlit("is-2");
        reveal_strlit("is-3");
        reveal_strlit("is-4");
        reveal_strlit("is-5");
        reveal_strlit("is-6");
    }
    let r = s.to_owned();
    assert(r@ =~= heading_classes(l)[1]);
    r
}

/// Rewrites one event.
pub fn rewrite_event(e: MarkupEvent) -> (r: MarkupEvent)
    ensures
        rewrites_to(e, r),
{
    match e {
        MarkupEvent::Start(Element::Heading { level, id, classes }) => {
            let mut c = classes;
            let title = "title".to_owned();
            proof {
                reveal_strlit("title");
                assert(title@ =~= heading_classes(level)[0]);
            }
            c.push(title);
            c.push(level_class(level));
            assert(views(c@) =~= views(classes@) + heading_classes(level));
            MarkupEvent::Start(Element::Heading { level, id, classes: c })
        },
        MarkupEvent::Start(Element::Table { aligns, classes }) => {
            let mut c = classes;
            let t = "table".to_owned();
            proof {
                reveal_strlit("table");
                assert(t@ =~= table_class());
            }
            c.push(t);
            assert(views(c@) =~= views(classes@).push(table_class()));
            MarkupEvent::Start(Element::Table { aligns, classes: c })
        },
        other => other,
    }
}

/// Rewrites every event, keeping their number and order.
pub fn rewrite(events: Vec<MarkupEvent>) -> (r: Vec<MarkupEvent>)
    ensures
        r@.len() == events@.len(),
        forall|i: int| 0 <= i < events@.len() ==> rewrites_to(events@[i], #[trigger] r@[i]),
        events_view(r@) == events_view(events@).map_values(|e: MarkupEventV| rewritten(e)),
{
    let ghost n = events@.len();
    let mut src = events;
    let mut rest: Vec<MarkupEvent> = Vec::new();
    while src.len() > 0
        invariant
            src@.len() + rest@.len() == n,
            n == events@.len(),
            forall|i: int| 0 <= i < src@.len() ==> #[trigger] src@[i] == events@[i],
            forall|i: int|
                0 <= i < rest@.len() ==> #[trigger] rest@[i] == events@[n - 1 - i],
        decreases src@.len(),
    {
        let e = src.pop().unwrap();
        rest.push(e);
    }
    let mut r: Vec<MarkupEvent> = Vec::new();
    while rest.len() > 0
        invariant
            r@.len() + rest@.len() == n,
            n == events@.len(),
            forall|i: int| 0 <= i < r@.len() ==> rewrites_to(events@[i], #[trigger] r@[i]),
            forall|i: int|
                0 <= i < rest@.len() ==> #[trigger] rest@[i] == events@[n - 1 - i],
        decreases rest@.len(),
    {
        let e = rest.pop().unwrap();
        r.push(rewrite_event(e));
    }
    assert forall|i: int| 0 <= i < n implies events_view(r@)[i] == events_view(events@).map_values(
        |e: MarkupEventV| rewritten(e),
    )[i] by {
        lemma_rewrites_to_model(events@[i], r@[i]);
    }
    assert(events_view(r@) =~= events_view(events@).map_values(|e: MarkupEventV| rewritten(e)));
    r
}

/// Rewriting keeps the kind of every event.
pub proof fn lemma_rewrite_keeps_kind(e: MarkupEvent, r: MarkupEvent)
    requires
        rewrites_to(e, r),
    ensures
        event_kind(r) == event_kind(e),
{
}

/// Rewriting a sequence keeps its length and the kind of each event in turn.
pub proof fn lemma_rewrite_keeps_order(events: Seq<MarkupEvent>, r: Seq<MarkupEvent>)
    requires
        r.len() == events.len(),
        forall|i: int| 0 <= i < events.len() ==> rewrites_to(events[i], #[trigger] r[i]),
    ensures
        r.map_values(|e: MarkupEvent| event_kind(e)) == events.map_values(|e: MarkupEvent| event_kind(e)),
{
    assert forall|i: int| 0 <= i < events.len() implies event_kind(r[i]) == event_kind(
        events[i],
    ) by {
        lemma_rewrite_keeps_kind(events[i], r[i]);
    }
    assert(r.map_values(|e: MarkupEvent| event_kind(e)) =~= events.map_values(|e: MarkupEvent| event_kind(e)));
}

} // verus!
