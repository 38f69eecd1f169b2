//! What is written for one book entry: its directory and its two files.
use vstd::prelude::*;
use vstd::string::*;
use crate::crawl::{
    about_of, about_text, CrawlError, Fetched, ABOUT_FILE, ABOUT_PREFIX, ABOUT_QUERY, ABOUT_SUFFIX,
    BOOK_FILE, LINK_ATTR, NEWLINE, PATH_SEP, TEXT_SUFFIX,
};
use crate::extract::{document_matches, query_compiles};
use crate::text::{join2, join3};

verus! {

/// Separator between the tag and the date in the archive's name.
pub const NAME_SEP: &'static str = "_";

/// The archive root's name: `<tag>_<date>`.
pub fn archive_dir_name(tag: &str, date: &str) -> (r: String)
    ensures
        r@ == tag@ + NAME_SEP@ + date@,
{
    join3(tag, NAME_SEP, date)
}

/// URL of an entry's statistics page, which holds its metadata.
pub fn about_page_url(url: &str) -> (r: String)
    ensures
        r@ == url@ + ABOUT_SUFFIX@,
{
    join2(url, ABOUT_SUFFIX)
}

/// URL of an entry's full text.
pub fn book_text_url(url: &str) -> (r: String)
    ensures
        r@ == url@ + TEXT_SUFFIX@,
{
    join2(url, TEXT_SUFFIX)
}

/// The directory of the book named `name` inside the archive `archive`.
pub open spec fn book_dir(archive: Seq<char>, name: Seq<char>) -> Seq<char> {
    archive + PATH_SEP@ + name
}

/// The directory of the book named `name` inside the archive `archive`.
pub fn book_dir_path(archive: &str, name: &str) -> (r: String)
    ensures
        r@ == book_dir(archive@, name@),
{
    join3(archive, PATH_SEP, name)
}

/// The metadata file's contents: `URL - <url>`, a line break, then the
/// metadata text.
pub open spec fn about_contents(url: Seq<char>, about: Seq<char>) -> Seq<char> {
    ABOUT_PREFIX@ + url + NEWLINE@ + about
}

/// The files of one book, as (path, contents) pairs: the metadata file, then
/// the full text verbatim.
pub open spec fn book_files(archive: Seq<char>, name: Seq<char>, url: Seq<char>, about: Seq<char>, body: Seq<char>) -> Seq<(Seq<char>, Seq<char>)> {
    let dir = book_dir(archive, name);
    seq![
        (dir + PATH_SEP@ + ABOUT_FILE@, about_contents(url, about)),
        (dir + PATH_SEP@ + BOOK_FILE@, body),
    ]
}

/// One file to write.
#[derive(Clone, Debug, PartialEq, Eq)]
pub struct BookFile {
    pub path: String,
    pub contents: String,
}

impl View for BookFile {
    type V = (Seq<char>, Seq<char>);

    open spec fn view(&self) -> (Seq<char>, Seq<char>) {
        (self.path@, self.contents@)
    }
}

/// The directory to create for one book and the files to write in it.
#[derive(Clone, Debug, PartialEq, Eq)]
pub struct BookPlan {
    pub dir: String,
    pub files: Vec<BookFile>,
}

impl View for BookPlan {
    type V = (Seq<char>, Seq<(Seq<char>, Seq<char>)>);

    open spec fn view(&self) -> (Seq<char>, Seq<(Seq<char>, Seq<char>)>) {
        (self.dir@, self.files@.map_values(|f: BookFile| f@))
    }
}

/// The directory and files of the book `name` at `url`, from the metadata
/// text and the full text.
pub fn files_for(archive: &str, name: &str, url: &str, about: &str, body: &str) -> (r: BookPlan)
    ensures
        r@ == (book_dir(archive@, name@), book_files(archive@, name@, url@, about@, body@)),
{
    let dir = book_dir_path(archive, name);
    let about_path = join3(dir.as_str(), PATH_SEP, ABOUT_FILE);
    let book_path = join3(dir.as_str(), PATH_SEP, BOOK_FILE);
    let head = join3(ABOUT_PREFIX, url, NEWLINE);
    let contents = join2(head.as_str(), about);
    let mut files: Vec<BookFile> = Vec::new();
    files.push(BookFile { path: about_path, contents });
    files.push(BookFile { path: book_path, contents: String::from_str(body) });
    let r = BookPlan { dir, files };
    assert(r@.1 =~= book_files(archive@, name@, url@, about@, body@));
    r
}

/// The plan for one book from its fetched statistics page and full text.
/// Fails, and nothing is to be written, when either fetch failed.
pub fn download_plan(archive: &str, name: &str, url: &str, about_page: Fetched, body: Fetched) -> (r: Result<BookPlan, CrawlError>)
    ensures
        r is Ok <==> (about_page is Body && body is Body && query_compiles(ABOUT_QUERY@)),
        about_page is Failed ==> r is Err && r->Err_0 == (CrawlError::Fetch {
            url: about_page->Failed_url,
            cause: about_page->Failed_cause,
        }),
        about_page is Body && body is Failed && query_compiles(ABOUT_QUERY@) ==>
            r is Err && r->Err_0 == (CrawlError::Fetch { url: body->Failed_url, cause: body->Failed_cause }),
        about_page is Body && !query_compiles(ABOUT_QUERY@) ==> r is Err && r->Err_0 is BadQuery,
        r is Ok ==> r->Ok_0@ == (book_dir(archive@, name@), book_files(
            archive@,
            name@,
            url@,
            about_of(document_matches(about_page->Body_0@, ABOUT_QUERY@, LINK_ATTR@)),
            body->Body_0@,
        )),
{
    let doc = match about_page {
        Fetched::Body(doc) => doc,
        Fetched::Failed { url, cause } => {
            return Err(CrawlError::Fetch { url, cause });
        },
    };
    let about = match about_text(doc.as_str()) {
        Ok(a) => a,
        Err(e) => {
            return Err(e);
        },
    };
    match body {
        Fetched::Body(text) => Ok(files_for(archive, name, url, about.as_str(), text.as_str())),
        Fetched::Failed { url, cause } => Err(CrawlError::Fetch { url, cause }),
    }
}

/// A book's directory holds exactly two files, distinct, and the metadata
/// file's first line is exactly `URL - <url>` when the URL holds no line
/// break.
pub proof fn lemma_book_files_shape(archive: Seq<char>, name: Seq<char>, url: Seq<char>, about: Seq<char>, body: Seq<char>)
    requires
        !url.contains('\n'),
    ensures
        ({
            let files = book_files(archive, name, url, about, body);
            let first = ABOUT_PREFIX@ + url;
            let c = files[0].1;
            &&& files.len() == 2
            &&& files[0].0 != files[1].0
            &&& c.len() > first.len()
            &&& c.subrange(0, first.len() as int) == first
            &&& c[first.len() as int] == '\n'
            &&& forall|i: int| 0 <= i < first.len() ==> c[i] != '\n'
        }),
{
    reveal_strlit("URL - ");
    reveal_strlit("\n");
    reveal_strlit("about.txt");
    reveal_strlit("book.txt");
    let files = book_files(archive, name, url, about, body);
    let first = ABOUT_PREFIX@ + url;
    let c = files[0].1;
    let d = book_dir(archive, name) + PATH_SEP@;
    assert(c.subrange(0, first.len() as int) =~= first);
    assert(c[first.len() as int] == '\n');
    assert forall|i: int| 0 <= i < first.len() implies c[i] != '\n' by {
        if i >= ABOUT_PREFIX@.len() {
            assert(url[i - ABOUT_PREFIX@.len()] == c[i]);
        }
    }
    assert(files[0].0[d.len() as int] != files[1].0[d.len() as int]);
}

/// Two archives of the same remote content made on different dates hold the
/// same book directories and files: only the archive root's name differs.
pub proof fn lemma_archives_alike(tag: Seq<char>, date1: Seq<char>, date2: Seq<char>, name: Seq<char>, url: Seq<char>, about: Seq<char>, body: Seq<char>)
    ensures
        ({
            let a1 = tag + NAME_SEP@ + date1;
            let a2 = tag + NAME_SEP@ + date2;
            let f1 = book_files(a1, name, url, about, body);
            let f2 = book_files(a2, name, url, about, body);
            &&& f1.len() == f2.len()
            &&& book_dir(a1, name).subrange(a1.len() as int, book_dir(a1, name).len() as int)
                == book_dir(a2, name).subrange(a2.len() as int, book_dir(a2, name).len() as int)
            &&& forall|i: int| 0 <= i < f1.len() ==> {
                &&& (#[trigger] f1[i]).1 == f2[i].1
                &&& f1[i].0.subrange(0, a1.len() as int) == a1
                &&& f2[i].0.subrange(0, a2.len() as int) == a2
                &&& f1[i].0.subrange(a1.len() as int, f1[i].0.len() as int)
                    == f2[i].0.subrange(a2.len() as int, f2[i].0.len() as int)
            }
        }),
{
    let a1 = tag + NAME_SEP@ + date1;
    let a2 = tag + NAME_SEP@ + date2;
    let f1 = book_files(a1, name, url, about, body);
    let f2 = book_files(a2, name, url, about, body);
    let d1 = book_dir(a1, name);
    let d2 = book_dir(a2, name);
    assert(d1.subrange(a1.len() as int, d1.len() as int) =~= PATH_SEP@ + name);
    assert(d2.subrange(a2.len() as int, d2.len() as int) =~= PATH_SEP@ + name);
    assert(f1[0].0.subrange(0, a1.len() as int) =~= a1);
    assert(f1[1].0.subrange(0, a1.len() as int) =~= a1);
    assert(f2[0].0.subrange(0, a2.len() as int) =~= a2);
    assert(f2[1].0.subrange(0, a2.len() as int) =~= a2);
    assert(f1[0].0.subrange(a1.len() as int, f1[0].0.len() as int)
        =~= f2[0].0.subrange(a2.len() as int, f2[0].0.len() as int));
    assert(f1[1].0.subrange(a1.len() as int, f1[1].0.len() as int)
        =~= f2[1].0.subrange(a2.len() as int, f2[1].0.len() as int));
}

} // verus!
