//! The decisions of the browser shell that fetches an article and shows it.
use vstd::prelude::*;
use crate::markup::MarkupEventV;
use crate::render::{html_of, lowered, parsed_of, render_markdown};

verus! {

/// Where fetching a value stands.
pub enum FetchState<T> {
    NotFetching,
    Fetching,
    Success(T),
    Failed(String),
}

/// What the article view is told.
pub enum Msg {
    /// The fetch has moved on to this state.
    SetMarkdownFetchState(FetchState<String>),
    /// Fetch the article's markdown.
    GetMarkdown,
    /// Fetch the article's markdown again after a failure.
    GetError,
}

/// The properties of the article view: the address of the article.
pub struct Props {
    pub id: String,
}

/// What the shell does after a message.
pub struct Update {
    /// Whether the view is drawn again.
    pub redraw: bool,
    /// Whether to start fetching the article, and meanwhile to report the
    /// fetch as under way.
    pub fetch: bool,
}

/// The article view's state after a message, and what follows from it: a
/// new fetch state is taken and drawn; a request to fetch leaves the state
/// as it is and starts a fetch.
pub fn update(state: &mut FetchState<String>, msg: Msg) -> (r: Update)
    ensures
        match msg {
            Msg::SetMarkdownFetchState(s) => *final(state) == s && r.redraw && !r.fetch,
            _ => *final(state) == *old(state) && !r.redraw && r.fetch,
        },
{
    match msg {
        Msg::SetMarkdownFetchState(s) => {
            *state = s;
            Update { redraw: true, fetch: false }
        },
        _ => Update { redraw: false, fetch: true },
    }
}

/// What the article view shows.
pub enum Shown {
    /// A plain message.
    Message(String),
    /// Rendered HTML.
    Rendered(String),
}

/// The message shown while the article is on its way.
pub open spec fn loading_message() -> Seq<char> {
    "Getting markdown..."@
}

/// The message shown where the article could not be fetched.
pub open spec fn missing_message() -> Seq<char> {
    "404"@
}

/// What the view shows in each fetch state: a loading message until the
/// markdown has come, then its HTML, or a not-found message on failure.
pub fn view_content(state: &FetchState<String>) -> (r: Shown)
    ensures
        match *state {
            FetchState::NotFetching | FetchState::Fetching => r matches Shown::Message(m)
                && m@ == loading_message(),
            FetchState::Success(data) => r matches Shown::Rendered(h) && h@ == html_of(
                lowered(parsed_of(data@)),
            ),
            FetchState::Failed(_) => r matches Shown::Message(m) && m@ == missing_message(),
        },
{
    proof {
        reveal_strlit("Getting markdown...");
        reveal_strlit("404");
    }
    match state {
        FetchState::NotFetching => Shown::Message("Getting markdown...".to_owned()),
        FetchState::Fetching => Shown::Message("Getting markdown...".to_owned()),
        FetchState::Success(data) => Shown::Rendered(render_markdown(data.as_str())),
        FetchState::Failed(_) => Shown::Message("404".to_owned()),
    }
}

} // verus!
