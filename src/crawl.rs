//! Listing-page discovery, entry enumeration and the files planned per book.
use vstd::prelude::*;
use vstd::string::*;
use crate::extract::{select, match_views, document_matches, query_compiles, LinkMatch};
use crate::text::{join2, replace_all, replaced, trim, trimmed};

verus! {

/// The site that every discovered link is relative to.
pub const SITE_BASE_URL: &'static str = "http://translatedby.com";

/// The tag that is archived by default.
pub const TAG: &'static str = "GURPS";

/// The root listing page of the default tag.
pub const TAG_URL: &'static str = "http://translatedby.com/you/tags/GURPS/";

/// Query for the pagination links of a listing page.
pub const PAGER_QUERY: &'static str = "div.spager a";

/// Query for the entry links of a listing page.
pub const ENTRY_QUERY: &'static str = "dl.translations-list dt a";

/// Query for the metadata block of an entry's statistics page.
pub const ABOUT_QUERY: &'static str = "#about-translation blockquote";

/// The attribute that holds a link's target.
pub const LINK_ATTR: &'static str = "href";

/// The path segment that leads from an entry's content root to its translation.
pub const ENTRY_SEGMENT: &'static str = "/trans/";

/// What the entry segment is rewritten to.
pub const SEGMENT_REPLACEMENT: &'static str = "/";

/// Suffix of an entry's metadata page.
pub const ABOUT_SUFFIX: &'static str = "stats/";

/// Suffix of an entry's full text.
pub const TEXT_SUFFIX: &'static str = ".txt";

/// Name of the metadata file in a book directory.
pub const ABOUT_FILE: &'static str = "about.txt";

/// Name of the full-text file in a book directory.
pub const BOOK_FILE: &'static str = "book.txt";

/// Separator between path components.
pub const PATH_SEP: &'static str = "/";

/// Text that starts the metadata file, before the entry's URL.
pub const ABOUT_PREFIX: &'static str = "URL - ";

/// Ends the first line of the metadata file.
pub const NEWLINE: &'static str = "\n";

/// Why a crawl step failed.
#[derive(Clone, Debug, PartialEq, Eq)]
pub enum CrawlError {
    /// A structural query of the library is malformed.
    BadQuery,
    /// A pagination link has no target.
    MissingHref,
    /// A fetch failed: the URL and the cause.
    Fetch { url: String, cause: String },
}

/// The entries of one listing page: display names and content-root URLs,
/// position by position.
#[derive(Clone, Debug, PartialEq, Eq)]
pub struct PageEntries {
    pub names: Vec<String>,
    pub urls: Vec<String>,
}

/// The outcome of one fetch: the body, or the URL and cause of the failure.
#[derive(Clone, Debug, PartialEq, Eq)]
pub enum Fetched {
    Body(String),
    Failed { url: String, cause: String },
}

/// The listing pages named by a root page whose pagination links are
/// `found`: the root first, then each link target made absolute, in document
/// order; none if a link has no target.
pub open spec fn pager_urls(root: Seq<char>, base: Seq<char>, found: Seq<(Option<Seq<char>>, Seq<char>)>) -> Option<Seq<Seq<char>>> {
    if forall|i: int| 0 <= i < found.len() ==> (#[trigger] found[i]).0 is Some {
        Some(seq![root] + found.map_values(|m: (Option<Seq<char>>, Seq<char>)| base + m.0->0))
    } else {
        None
    }
}

/// Builds the listing-page URLs from the pagination matches of the root page.
pub fn pages_from_matches(root: &str, base: &str, found: &Vec<LinkMatch>) -> (r: Option<Vec<String>>)
    ensures
        r is Some ==> r->0.deep_view() == pager_urls(root@, base@, match_views(found@))->0,
        r is Some == pager_urls(root@, base@, match_views(found@)) is Some,
        r is Some ==> r->0@.len() == found@.len() + 1,
        r is Some ==> r->0@[0]@ == root@,
        r is Some ==> forall|i: int| 0 <= i < found@.len() ==>
            r->0@[i + 1]@ == base@ + (#[trigger] found@[i]).href->0@,
{
    let ghost fv = match_views(found@);
    let mut urls: Vec<String> = Vec::new();
    urls.push(String::from_str(root));
    let mut i: usize = 0;
    while i < found.len()
        invariant
            fv == match_views(found@),
            i <= found@.len(),
            urls@.len() == i + 1,
            urls@[0]@ == root@,
            forall|k: int| 0 <= k < i ==> fv[k].0 is Some,
            forall|k: int| 0 <= k < i ==> urls@[k + 1]@ == base@ + (#[trigger] fv[k]).0->0,
        decreases found@.len() - i,
    {
        match &found[i].href {
            Some(h) => {
                urls.push(join2(base, h.as_str()));
            },
            None => {
                assert(!(fv[i as int].0 is Some));
                return None;
            },
        }
        i = i + 1;
    }
    let ghost expected = pager_urls(root@, base@, fv)->0;
    assert(urls.deep_view() =~= expected);
    assert forall|k: int| 0 <= k < found@.len() implies
        urls@[k + 1]@ == base@ + (#[trigger] found@[k]).href->0@ by {
        assert(fv[k] == found@[k]@);
    }
    Some(urls)
}

/// Fetched root page `doc` to listing-page URLs: the root, then one URL per
/// pagination link. Fails when a pagination link has no target.
pub fn get_pages_urls(root: &str, base: &str, doc: &str) -> (r: Result<Vec<String>, CrawlError>)
    ensures
        !query_compiles(PAGER_QUERY@) ==> r is Err && r->Err_0 is BadQuery,
        query_compiles(PAGER_QUERY@) ==> match pager_urls(root@, base@, document_matches(doc@, PAGER_QUERY@, LINK_ATTR@)) {
            Some(urls) => r is Ok && r->Ok_0.deep_view() == urls,
            None => r is Err && r->Err_0 is MissingHref,
        },
        r is Ok ==> {
            let found = document_matches(doc@, PAGER_QUERY@, LINK_ATTR@);
            &&& r->Ok_0@.len() == found.len() + 1
            &&& r->Ok_0@[0]@ == root@
            &&& forall|i: int| 0 <= i < found.len() ==> r->Ok_0@[i + 1]@ == base@ + (#[trigger] found[i]).0->0
        },
{
    match select(doc, PAGER_QUERY, LINK_ATTR) {
        None => Err(CrawlError::BadQuery),
        Some(found) => match pages_from_matches(root, base, &found) {
            Some(urls) => Ok(urls),
            None => Err(CrawlError::MissingHref),
        },
    }
}

/// The absolute content-root URL of an entry whose link target is `href`.
pub open spec fn entry_url(base: Seq<char>, href: Seq<char>) -> Seq<char> {
    base + replaced(href, ENTRY_SEGMENT@, SEGMENT_REPLACEMENT@)
}

/// The display names of the entries among `found`, in document order:
/// links without a target are skipped.
pub open spec fn entry_names(found: Seq<(Option<Seq<char>>, Seq<char>)>) -> Seq<Seq<char>>
    decreases found.len(),
{
    if found.len() == 0 {
        seq![]
    } else {
        let prev = entry_names(found.drop_last());
        if found.last().0 is Some {
            prev.push(trimmed(found.last().1))
        } else {
            prev
        }
    }
}

/// The content-root URLs of the entries among `found`, in document order:
/// links without a target are skipped.
pub open spec fn entry_urls(base: Seq<char>, found: Seq<(Option<Seq<char>>, Seq<char>)>) -> Seq<Seq<char>>
    decreases found.len(),
{
    if found.len() == 0 {
        seq![]
    } else {
        let prev = entry_urls(base, found.drop_last());
        if found.last().0 is Some {
            prev.push(entry_url(base, found.last().0->0))
        } else {
            prev
        }
    }
}

/// Rewrites an entry link target into the entry's absolute content-root URL.
pub fn entry_base_url(base: &str, href: &str) -> (r: String)
    ensures
        r@ == entry_url(base@, href@),
{
    proof {
        reveal_strlit("/trans/");
    }
    let rewritten = replace_all(href, ENTRY_SEGMENT, SEGMENT_REPLACEMENT);
    join2(base, rewritten.as_str())
}

/// Splits the entry-link matches of a listing page into display names and
/// content-root URLs, two sequences of equal length in document order.
pub fn entries_from_matches(base: &str, found: &Vec<LinkMatch>) -> (r: PageEntries)
    ensures
        r.names.deep_view() == entry_names(match_views(found@)),
        r.urls.deep_view() == entry_urls(base@, match_views(found@)),
        r.names@.len() == r.urls@.len(),
        found@.len() == 0 ==> r.names@.len() == 0 && r.urls@.len() == 0,
{
    let ghost fv = match_views(found@);
    let mut names: Vec<String> = Vec::new();
    let mut urls: Vec<String> = Vec::new();
    let mut i: usize = 0;
    assert(fv.take(0) =~= Seq::<(Option<Seq<char>>, Seq<char>)>::empty());
    assert(names.deep_view() =~= Seq::<Seq<char>>::empty());
    assert(urls.deep_view() =~= Seq::<Seq<char>>::empty());
    while i < found.len()
        invariant
            fv == match_views(found@),
            i <= found@.len(),
            names.deep_view() == entry_names(fv.take(i as int)),
            urls.deep_view() == entry_urls(base@, fv.take(i as int)),
            names@.len() == urls@.len(),
        decreases found@.len() - i,
    {
        let ghost next = fv.take(i + 1);
        assert(next.drop_last() =~= fv.take(i as int));
        assert(next.last() == found@[i as int]@);
        let m = &found[i];
        match &m.href {
            Some(h) => {
                let name = trim(m.text.as_str());
                let url = entry_base_url(base, h.as_str());
                let ghost old_names = names.deep_view();
                let ghost old_urls = urls.deep_view();
                names.push(name);
                urls.push(url);
                assert(names.deep_view() =~= old_names.push(name@));
                assert(urls.deep_view() =~= old_urls.push(url@));
            },
            None => {},
        }
        i = i + 1;
    }
    assert(fv.take(found@.len() as int) =~= fv);
    PageEntries { names, urls }
}

/// Fetched listing page `doc` to the display names and content-root URLs of
/// its entries. A page without entries gives two empty sequences.
pub fn parse_page(base: &str, doc: &str) -> (r: Result<PageEntries, CrawlError>)
    ensures
        r is Err <==> !query_compiles(ENTRY_QUERY@),
        r is Err ==> r->Err_0 is BadQuery,
        r is Ok ==> r->Ok_0.names.deep_view() == entry_names(document_matches(doc@, ENTRY_QUERY@, LINK_ATTR@)),
        r is Ok ==> r->Ok_0.urls.deep_view() == entry_urls(base@, document_matches(doc@, ENTRY_QUERY@, LINK_ATTR@)),
        r is Ok ==> r->Ok_0.names@.len() == r->Ok_0.urls@.len(),
        query_compiles(ENTRY_QUERY@) && document_matches(doc@, ENTRY_QUERY@, LINK_ATTR@).len() == 0 ==>
            r is Ok && r->Ok_0.names@.len() == 0 && r->Ok_0.urls@.len() == 0,
{
    match select(doc, ENTRY_QUERY, LINK_ATTR) {
        None => Err(CrawlError::BadQuery),
        Some(found) => Ok(entries_from_matches(base, &found)),
    }
}

/// The metadata text found among the matches of the metadata query: the
/// trimmed text of the first match, or empty when nothing matched.
pub open spec fn about_of(found: Seq<(Option<Seq<char>>, Seq<char>)>) -> Seq<char> {
    if found.len() == 0 {
        seq![]
    } else {
        trimmed(found[0].1)
    }
}

/// The metadata text of an entry's fetched statistics page `doc`.
pub fn about_text(doc: &str) -> (r: Result<String, CrawlError>)
    ensures
        r is Err <==> !query_compiles(ABOUT_QUERY@),
        r is Err ==> r->Err_0 is BadQuery,
        r is Ok ==> r->Ok_0@ == about_of(document_matches(doc@, ABOUT_QUERY@, LINK_ATTR@)),
{
    match select(doc, ABOUT_QUERY, LINK_ATTR) {
        None => Err(CrawlError::BadQuery),
        Some(found) => {
            if found.len() == 0 {
                Ok(String::new())
            } else {
                assert(match_views(found@)[0] == found@[0]@);
                Ok(trim(found[0].text.as_str()))
            }
        },
    }
}

} // verus!
