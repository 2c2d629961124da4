//! The article listing: one summary per document of the tree.
use vstd::prelude::*;
use crate::digest::{id_of, location_id};

verus! {

/// The placeholder page size reported with every listing.
pub const LISTING_COUNT: u32 = 100;

/// The placeholder page offset reported with every listing.
pub const LISTING_START: u32 = 30;

/// A document as the listing shows it.
pub struct Article {
    /// The document's identifier.
    pub hash: String,
    /// The attribution; a fixed placeholder, as documents carry no metadata.
    pub author: String,
    /// The body; absent in listings.
    pub content: Option<String>,
}

/// A listing of articles with its pagination fields.
pub struct ArticleManager {
    pub count: u32,
    pub start: u32,
    pub articles: Vec<Article>,
}

/// The placeholder author of every article.
pub open spec fn placeholder_author() -> Seq<char> {
    seq!['x', 'm', 'l']
}

/// Whether `a` is the summary of the document at `loc`.
pub open spec fn summarizes(a: Article, loc: Seq<char>) -> bool {
    &&& a.hash@ == id_of(loc)
    &&& a.author@ == placeholder_author()
    &&& a.content is None
}

/// One summary per location, in the same order, with placeholder
/// pagination fields.
pub fn list_articles(locations: &Vec<String>) -> (r: ArticleManager)
    ensures
        r.count == LISTING_COUNT,
        r.start == LISTING_START,
        r.articles@.len() == locations@.len(),
        forall|i: int|
            0 <= i < locations@.len() ==> summarizes(#[trigger] r.articles@[i], locations@[i]@),
{
    let mut articles: Vec<Article> = Vec::new();
    let mut i: usize = 0;
    while i < locations.len()
        invariant
            i <= locations@.len(),
            articles@.len() == i,
            forall|j: int| 0 <= j < i ==> summarizes(#[trigger] articles@[j], locations@[j]@),
        decreases locations@.len() - i,
    {
        let author = "xml".to_owned();
        proof {
            reveal_strlit("xml");
            assert(author@ =~= placeholder_author());
        }
        articles.push(Article { hash: location_id(locations[i].as_str()), author, content: None });
        i = i + 1;
    }
    ArticleManager { count: LISTING_COUNT, start: LISTING_START, articles }
}

} // verus!
