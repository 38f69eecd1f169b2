use std::collections::{BTreeMap, HashMap, VecDeque};
use tag_archiver::artifact::{about_page_url, archive_dir_name, book_text_url, download_plan};
use tag_archiver::crawl::{get_pages_urls, parse_page, Fetched, PageEntries, SITE_BASE_URL, TAG, TAG_URL};
use tag_archiver::pipeline::{Action, Coordinator, Stage, CONCURRENT_REQUESTS};
use tag_archiver::pool::TaskPool;

enum Job {
    Page(usize, String),
    Book(usize, String, String),
}

/// Drives a run to its end, finishing the oldest unit in flight whenever the
/// coordinator asks to wait. Returns the largest number of units seen in
/// flight at once.
fn drive(
    c: &mut Coordinator,
    page: &dyn Fn(&str) -> Option<PageEntries>,
    book: &mut dyn FnMut(&str, &str) -> bool,
) -> usize {
    let mut flying: VecDeque<Job> = VecDeque::new();
    let mut most = 0;
    loop {
        match c.next_action() {
            Action::EnumeratePage { index, url } => flying.push_back(Job::Page(index, url)),
            Action::Download { index, name, url } => flying.push_back(Job::Book(index, name, url)),
            Action::Wait => match flying.pop_front().unwrap() {
                Job::Page(i, url) => c.page_done(i, page(&url)),
                Job::Book(i, name, url) => c.book_done(i, book(&name, &url)),
            },
            Action::Finish => break,
        }
        most = most.max(c.in_flight());
        assert_eq!(c.in_flight(), flying.len());
    }
    most
}

fn entries(pairs: &[(&str, &str)]) -> PageEntries {
    PageEntries {
        names: pairs.iter().map(|p| p.0.to_string()).collect(),
        urls: pairs.iter().map(|p| p.1.to_string()).collect(),
    }
}

#[test]
fn pool_hands_out_in_order_under_bound() {
    let mut p = TaskPool::new(3, 2);
    assert_eq!(p.launch(), Some(0));
    assert_eq!(p.launch(), Some(1));
    assert_eq!(p.launch(), None);
    assert_eq!(p.in_flight(), 2);
    p.finish(1, false);
    assert_eq!(p.launch(), Some(2));
    assert_eq!(p.launch(), None);
    p.finish(0, true);
    p.finish(2, true);
    assert!(p.is_done());
    assert_eq!(p.succeeded(), 2);
    assert_eq!(p.failed(), 1);
}

#[test]
fn empty_run_finishes_at_once() {
    let mut c = Coordinator::new(CONCURRENT_REQUESTS);
    assert_eq!(c.stage(), Stage::Discovering);
    c.pages_discovered(vec![]);
    assert_eq!(c.next_action(), Action::Finish);
    assert_eq!(c.stage(), Stage::Done);
}

#[test]
fn in_flight_never_exceeds_bound() {
    for bound in 1..4 {
        let pages: Vec<String> = (0..5).map(|i| format!("page-{}", i)).collect();
        let mut c = Coordinator::new(bound);
        c.pages_discovered(pages);
        let page = |url: &str| {
            Some(entries(&[(&format!("{}-a", url), "u"), (&format!("{}-b", url), "v")]))
        };
        let most = drive(&mut c, &page, &mut |_, _| true);
        assert_eq!(most, bound);
        assert_eq!(c.succeeded(), 10);
        assert_eq!(c.failed(), 0);
    }
}

#[test]
fn entries_follow_page_order_whatever_the_completion_order() {
    let mut c = Coordinator::new(2);
    c.pages_discovered(vec!["first".to_string(), "second".to_string()]);
    assert_eq!(c.next_action(), Action::EnumeratePage { index: 0, url: "first".to_string() });
    assert_eq!(c.next_action(), Action::EnumeratePage { index: 1, url: "second".to_string() });
    assert_eq!(c.next_action(), Action::Wait);
    c.page_done(1, Some(entries(&[("B", "ub")])));
    c.page_done(0, Some(entries(&[("A", "ua")])));
    assert_eq!(
        c.next_action(),
        Action::Download { index: 0, name: "A".to_string(), url: "ua".to_string() }
    );
    assert_eq!(c.names(), &vec!["A".to_string(), "B".to_string()]);
    assert_eq!(c.urls(), &vec!["ua".to_string(), "ub".to_string()]);
}

#[test]
fn failed_page_contributes_no_entries() {
    let mut c = Coordinator::new(2);
    c.pages_discovered(vec!["good".to_string(), "bad".to_string()]);
    let page = |url: &str| if url == "bad" { None } else { Some(entries(&[("A", "ua")])) };
    let mut seen = Vec::new();
    drive(&mut c, &page, &mut |name, _| {
        seen.push(name.to_string());
        true
    });
    assert_eq!(c.failed_pages(), 1);
    assert_eq!(seen, vec!["A"]);
    assert_eq!(c.succeeded(), 1);
}

#[test]
fn failed_download_costs_exactly_one_success() {
    let mut c = Coordinator::new(2);
    c.pages_discovered(vec!["p".to_string()]);
    let page = |_: &str| Some(entries(&[("A", "ua"), ("B", "ub"), ("C", "uc")]));
    let mut seen = Vec::new();
    drive(&mut c, &page, &mut |name, _| {
        seen.push(name.to_string());
        name != "B"
    });
    assert_eq!(seen.len(), 3);
    assert_eq!(c.names().len(), 3);
    assert_eq!(c.failed(), 1);
    assert_eq!(c.succeeded(), c.names().len() - 1);
    assert_eq!(c.stage(), Stage::Done);
}

fn site() -> HashMap<String, String> {
    let mut s = HashMap::new();
    s.insert(
        TAG_URL.to_string(),
        r#"<div class="spager"><a href="/you/tags/GURPS/?page=2">2</a></div>
           <dl class="translations-list"><dt><a href="/trans/basicset">Basic Set</a></dt></dl>"#
            .to_string(),
    );
    s.insert(
        "http://translatedby.com/you/tags/GURPS/?page=2".to_string(),
        r#"<dl class="translations-list"><dt><a href="/trans/powers"> Powers </a></dt></dl>"#.to_string(),
    );
    for book in ["basicset", "powers"] {
        let url = format!("{}/{}", SITE_BASE_URL, book);
        s.insert(
            about_page_url(&url),
            format!(r#"<div id="about-translation"><blockquote>About {}</blockquote></div>"#, book),
        );
        s.insert(book_text_url(&url), format!("Text of {}", book));
    }
    s
}

fn archive_on(date: &str) -> BTreeMap<String, String> {
    let site = site();
    let fetch = |url: &str| match site.get(url) {
        Some(b) => Fetched::Body(b.clone()),
        None => Fetched::Failed { url: url.to_string(), cause: "not found".to_string() },
    };
    let root = archive_dir_name(TAG, date);
    let pages = get_pages_urls(TAG_URL, SITE_BASE_URL, &site[TAG_URL]).unwrap();
    assert_eq!(pages.len(), 2);
    let mut c = Coordinator::new(CONCURRENT_REQUESTS);
    c.pages_discovered(pages);
    let page = |url: &str| match fetch(url) {
        Fetched::Body(doc) => parse_page(SITE_BASE_URL, &doc).ok(),
        Fetched::Failed { .. } => None,
    };
    let mut tree: BTreeMap<String, String> = BTreeMap::new();
    drive(&mut c, &page, &mut |name, url| {
        let about = fetch(&about_page_url(url));
        let text = fetch(&book_text_url(url));
        match download_plan(&root, name, url, about, text) {
            Ok(plan) => {
                tree.insert(plan.dir.clone(), String::new());
                for f in plan.files {
                    tree.insert(f.path, f.contents);
                }
                true
            }
            Err(_) => false,
        }
    });
    assert_eq!(c.succeeded(), 2);
    tree
}

#[test]
fn two_pages_two_books_end_to_end() {
    let tree = archive_on("2024-05-06");
    let dirs: Vec<&String> = tree.keys().filter(|k| !k.ends_with(".txt")).collect();
    assert_eq!(dirs, vec!["GURPS_2024-05-06/Basic Set", "GURPS_2024-05-06/Powers"]);
    assert_eq!(
        tree["GURPS_2024-05-06/Basic Set/about.txt"],
        "URL - http://translatedby.com/basicset\nAbout basicset"
    );
    assert_eq!(tree["GURPS_2024-05-06/Basic Set/book.txt"], "Text of basicset");
    assert_eq!(
        tree["GURPS_2024-05-06/Powers/about.txt"],
        "URL - http://translatedby.com/powers\nAbout powers"
    );
    assert_eq!(tree["GURPS_2024-05-06/Powers/book.txt"], "Text of powers");
    assert_eq!(tree.len(), 6);
}

#[test]
fn runs_on_two_dates_give_alike_trees() {
    let a = archive_on("2024-05-06");
    let b = archive_on("2024-05-07");
    let strip = |t: &BTreeMap<String, String>, root: &str| -> Vec<(String, String)> {
        t.iter().map(|(k, v)| (k.strip_prefix(root).unwrap().to_string(), v.clone())).collect()
    };
    assert_eq!(strip(&a, "GURPS_2024-05-06"), strip(&b, "GURPS_2024-05-07"));
}
