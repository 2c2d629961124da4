//! The page an article is shown in.
use vstd::prelude::*;
use crate::render::render_article_html;
use crate::markup::rewritten;
use crate::markup::MarkupEventV;
use crate::render::{html_of, lowered, parsed_of};

verus! {

/// The values a page template is filled with: a title and the article's
/// rendered HTML, placed in the page as it is.
pub struct IndexTemplate {
    pub title: String,
    pub markdown: String,
}

/// The title every article page carries.
pub open spec fn page_title() -> Seq<char> {
    "test markdown"@
}

/// The page for an article whose markdown text is `text`.
pub fn article_page(text: &str) -> (r: IndexTemplate)
    ensures
        r.title@ == page_title(),
        r.markdown@ == html_of(
            lowered(parsed_of(text@).map_values(|e: MarkupEventV| rewritten(e))),
        ),
{
    let title = "test markdown".to_owned();
    proof {
        reveal_strlit("test markdown");
    }
    IndexTemplate { title, markdown: render_article_html(text) }
}

} // verus!
