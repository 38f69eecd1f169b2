use tag_archiver::artifact::{
    about_page_url, archive_dir_name, book_text_url, download_plan, files_for, BookFile,
};
use tag_archiver::crawl::{
    about_text, entries_from_matches, entry_base_url, get_pages_urls, pages_from_matches,
    parse_page, CrawlError, Fetched, SITE_BASE_URL, TAG, TAG_URL,
};
use tag_archiver::extract::LinkMatch;
use tag_archiver::text::{join2, join3, replace_all};

fn link(href: Option<&str>, text: &str) -> LinkMatch {
    LinkMatch { href: href.map(|h| h.to_string()), text: text.to_string() }
}

#[test]
fn replace_all_rewrites_every_occurrence() {
    assert_eq!(replace_all("/trans/basicset", "/trans/", "/"), "/basicset");
    assert_eq!(replace_all("/trans//trans/x", "/trans/", "/"), "//x");
    assert_eq!(replace_all("aaa", "aa", "b"), "ba");
    assert_eq!(replace_all("no match", "/trans/", "/"), "no match");
    assert_eq!(replace_all("", "/trans/", "/"), "");
}

#[test]
fn joins_concatenate() {
    assert_eq!(join2("ab", "cd"), "abcd");
    assert_eq!(join3("a", "-", "b"), "a-b");
}

#[test]
fn pages_root_first_then_pager_links_in_order() {
    let found = vec![link(Some("/page/two"), "2"), link(Some("/page/three"), "3"), link(Some("/root"), "1")];
    let urls = pages_from_matches("http://s/root", "http://s", &found).unwrap();
    assert_eq!(urls, vec!["http://s/root", "http://s/page/two", "http://s/page/three", "http://s/root"]);
}

#[test]
fn pages_without_pager_links_is_root_alone() {
    let urls = pages_from_matches("http://s/root", "http://s", &vec![]).unwrap();
    assert_eq!(urls, vec!["http://s/root"]);
}

#[test]
fn pages_fail_on_pager_link_without_target() {
    let found = vec![link(Some("/page/two"), "2"), link(None, "3")];
    assert_eq!(pages_from_matches("http://s/root", "http://s", &found), None);
}

#[test]
fn get_pages_urls_reads_the_pager() {
    let doc = r#"<html><body><div class="spager"><a href="/you/tags/GURPS/?page=2">2</a><a href="/you/tags/GURPS/?page=3">3</a></div><a href="/other">x</a></body></html>"#;
    let urls = get_pages_urls(TAG_URL, SITE_BASE_URL, doc).unwrap();
    assert_eq!(
        urls,
        vec![
            TAG_URL.to_string(),
            "http://translatedby.com/you/tags/GURPS/?page=2".to_string(),
            "http://translatedby.com/you/tags/GURPS/?page=3".to_string(),
        ]
    );
}

#[test]
fn get_pages_urls_fails_on_pager_link_without_href() {
    let doc = r#"<div class="spager"><a href="/page/two">2</a><a>3</a></div>"#;
    assert_eq!(get_pages_urls(TAG_URL, SITE_BASE_URL, doc), Err(CrawlError::MissingHref));
}

#[test]
fn entries_skip_links_without_target() {
    let found = vec![link(Some("/trans/a/"), "  Alpha \n"), link(None, "Skipped"), link(Some("/trans/b/"), "Beta")];
    let e = entries_from_matches("http://s", &found);
    assert_eq!(e.names, vec!["Alpha", "Beta"]);
    assert_eq!(e.urls, vec!["http://s/a/", "http://s/b/"]);
}

#[test]
fn entries_of_empty_page_are_empty() {
    let e = entries_from_matches("http://s", &vec![]);
    assert!(e.names.is_empty());
    assert!(e.urls.is_empty());
}

#[test]
fn parse_page_without_entries_gives_empty_sequences() {
    let e = parse_page(SITE_BASE_URL, "<html><body><p>nothing here</p></body></html>").unwrap();
    assert!(e.names.is_empty());
    assert!(e.urls.is_empty());
}

#[test]
fn parse_page_lists_entries_in_document_order() {
    let doc = r#"<dl class="translations-list"><dt><a href="/trans/basicset/"> Basic <b>Set</b> </a></dt><dd>x</dd><dt><a>broken</a></dt><dt><a href="/trans/powers/">Powers</a></dt></dl>"#;
    let e = parse_page(SITE_BASE_URL, doc).unwrap();
    assert_eq!(e.names, vec!["Basic Set", "Powers"]);
    assert_eq!(e.urls, vec!["http://translatedby.com/basicset/", "http://translatedby.com/powers/"]);
}

#[test]
fn entry_base_url_strips_translation_segment() {
    assert_eq!(entry_base_url(SITE_BASE_URL, "/trans/basicset"), "http://translatedby.com/basicset");
}

#[test]
fn about_text_takes_first_blockquote_trimmed() {
    let doc = r#"<div id="about-translation"><blockquote>  First block 
</blockquote><blockquote>Second</blockquote></div>"#;
    assert_eq!(about_text(doc).unwrap(), "First block");
}

#[test]
fn about_text_is_empty_without_blockquote() {
    assert_eq!(about_text("<html><body><blockquote>elsewhere</blockquote></body></html>").unwrap(), "");
}

#[test]
fn archive_name_is_tag_and_date() {
    assert_eq!(archive_dir_name(TAG, "2024-03-05"), "GURPS_2024-03-05");
}

#[test]
fn entry_urls_for_metadata_and_text() {
    assert_eq!(about_page_url("http://s/book/"), "http://s/book/stats/");
    assert_eq!(book_text_url("http://s/book"), "http://s/book.txt");
}

#[test]
fn book_plan_has_two_files_and_url_line() {
    let plan = files_for("GURPS_2024-03-05", "Basic Set", "http://s/basicset/", "About it", "TEXT");
    assert_eq!(plan.dir, "GURPS_2024-03-05/Basic Set");
    assert_eq!(plan.files.len(), 2);
    assert_eq!(
        plan.files[0],
        BookFile {
            path: "GURPS_2024-03-05/Basic Set/about.txt".to_string(),
            contents: "URL - http://s/basicset/\nAbout it".to_string(),
        }
    );
    assert_eq!(plan.files[0].contents.lines().next().unwrap(), "URL - http://s/basicset/");
    assert_eq!(
        plan.files[1],
        BookFile { path: "GURPS_2024-03-05/Basic Set/book.txt".to_string(), contents: "TEXT".to_string() }
    );
}

#[test]
fn book_plan_with_empty_metadata() {
    let plan = files_for("A", "B", "http://s/b", "", "");
    assert_eq!(plan.files[0].contents, "URL - http://s/b\n");
}

#[test]
fn plans_on_two_dates_differ_only_in_root() {
    let a = files_for(&archive_dir_name(TAG, "2024-01-01"), "Powers", "http://s/powers/", "m", "t");
    let b = files_for(&archive_dir_name(TAG, "2024-01-02"), "Powers", "http://s/powers/", "m", "t");
    assert_eq!(a.files.len(), b.files.len());
    for (fa, fb) in a.files.iter().zip(b.files.iter()) {
        assert_eq!(fa.contents, fb.contents);
        assert_eq!(fa.path.replace("2024-01-01", "2024-01-02"), fb.path);
    }
}

#[test]
fn download_plan_uses_fetched_pages() {
    let about = Fetched::Body(r#"<div id="about-translation"><blockquote> Meta </blockquote></div>"#.to_string());
    let body = Fetched::Body("full text\n".to_string());
    let plan = download_plan("root", "Name", "http://s/n/", about, body).unwrap();
    assert_eq!(plan.files[0].contents, "URL - http://s/n/\nMeta");
    assert_eq!(plan.files[1].contents, "full text\n");
}

#[test]
fn download_plan_fails_when_metadata_fetch_fails() {
    let about = Fetched::Failed { url: "http://s/n/stats/".to_string(), cause: "timeout".to_string() };
    let body = Fetched::Body("text".to_string());
    assert_eq!(
        download_plan("root", "Name", "http://s/n/", about, body),
        Err(CrawlError::Fetch { url: "http://s/n/stats/".to_string(), cause: "timeout".to_string() })
    );
}

#[test]
fn download_plan_fails_when_text_fetch_fails() {
    let about = Fetched::Body("<p></p>".to_string());
    let body = Fetched::Failed { url: "http://s/n.txt".to_string(), cause: "404".to_string() };
    assert_eq!(
        download_plan("root", "Name", "http://s/n", about, body),
        Err(CrawlError::Fetch { url: "http://s/n.txt".to_string(), cause: "404".to_string() })
    );
}
