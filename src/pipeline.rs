//! The crawl's decisions: which page to enumerate or which book to download
//! next, under the concurrency bound, and how the outcomes are tallied. The
//! caller performs each action and reports its outcome back.
use vstd::prelude::*;
use crate::crawl::PageEntries;
use crate::pool::{all_pending, lemma_count_absent, lemma_count_total, PoolView, TaskPool, TaskState};

verus! {

/// The number of units of each stage in flight at once, by default.
pub const CONCURRENT_REQUESTS: usize = 2;

/// Where a run stands.
#[derive(Clone, Copy, Debug, PartialEq, Eq, Structural)]
pub enum Stage {
    /// Waiting for the listing pages.
    Discovering,
    /// Enumerating the entries of each listing page.
    Enumerating,
    /// Downloading each entry.
    Downloading,
    /// Every entry was downloaded or failed.
    Done,
}

/// What the caller does next.
#[derive(Clone, Debug, PartialEq, Eq)]
pub enum Action {
    /// Fetch the listing page `index` at `url` and enumerate its entries.
    EnumeratePage { index: usize, url: String },
    /// Download the entry `index`, named `name`, at `url`.
    Download { index: usize, name: String, url: String },
    /// Wait for a unit in flight to finish.
    Wait,
    /// Every unit has finished: report the summary.
    Finish,
}

/// The sequences of `parts` one after another.
pub open spec fn concat_all(parts: Seq<Seq<Seq<char>>>) -> Seq<Seq<char>>
    decreases parts.len(),
{
    if parts.len() == 0 {
        seq![]
    } else {
        concat_all(parts.drop_last()) + parts.last()
    }
}

/// Parts of equal lengths concatenate to equal lengths.
pub proof fn lemma_concat_lengths(a: Seq<Seq<Seq<char>>>, b: Seq<Seq<Seq<char>>>)
    requires
        a.len() == b.len(),
        forall|i: int| 0 <= i < a.len() ==> (#[trigger] a[i]).len() == b[i].len(),
    ensures
        concat_all(a).len() == concat_all(b).len(),
    decreases a.len(),
{
    if a.len() > 0 {
        lemma_concat_lengths(a.drop_last(), b.drop_last());
    }
}

/// The vectors of `parts` one after another.
fn flatten(parts: &Vec<Vec<String>>) -> (r: Vec<String>)
    ensures
        r.deep_view() == concat_all(parts.deep_view()),
{
    let ghost pv = parts.deep_view();
    let mut out: Vec<String> = Vec::new();
    let mut i: usize = 0;
    assert(out.deep_view() =~= concat_all(pv.take(0)));
    while i < parts.len()
        invariant
            pv == parts.deep_view(),
            i <= parts@.len(),
            out.deep_view() == concat_all(pv.take(i as int)),
        decreases parts@.len() - i,
    {
        let part = &parts[i];
        let ghost before = out.deep_view();
        let mut j: usize = 0;
        assert(out.deep_view() =~= before + part.deep_view().take(0));
        while j < part.len()
            invariant
                i < parts@.len(),
                part == parts@[i as int],
                j <= part@.len(),
                out.deep_view() == before + part.deep_view().take(j as int),
            decreases part@.len() - j,
        {
            let c = part[j].clone();
            let ghost prev = out.deep_view();
            out.push(c);
            assert(out.deep_view() =~= prev.push(c@));
            assert(part.deep_view()[j as int] == c@);
            j = j + 1;
            assert(out.deep_view() =~= before + part.deep_view().take(j as int));
        }
        proof {
            assert(pv.take(i + 1).drop_last() =~= pv.take(i as int));
            assert(pv[i as int] == part.deep_view());
            assert(part.deep_view().take(part@.len() as int) =~= part.deep_view());
        }
        i = i + 1;
    }
    assert(pv.take(parts@.len() as int) =~= pv);
    out
}

/// A sequence of `n` empty parts.
pub open spec fn empty_parts(n: nat) -> Seq<Seq<Seq<char>>> {
    Seq::new(n, |i: int| Seq::<Seq<char>>::empty())
}

/// The abstract state of a run.
pub struct RunView {
    pub stage: Stage,
    pub bound: nat,
    pub pages: Seq<Seq<char>>,
    pub page_pool: PoolView,
    pub page_names: Seq<Seq<Seq<char>>>,
    pub page_urls: Seq<Seq<Seq<char>>>,
    pub names: Seq<Seq<char>>,
    pub urls: Seq<Seq<char>>,
    pub book_pool: PoolView,
}

impl RunView {
    /// The state of a run that is consistent with its stage.
    pub open spec fn wf(self) -> bool {
        &&& self.bound > 0
        &&& self.page_pool.wf()
        &&& self.book_pool.wf()
        &&& self.page_pool.bound == self.bound
        &&& self.book_pool.bound == self.bound
        &&& self.page_pool.states.len() == self.pages.len()
        &&& self.page_names.len() == self.pages.len()
        &&& self.page_urls.len() == self.pages.len()
        &&& forall|i: int| 0 <= i < self.pages.len() ==> (#[trigger] self.page_names[i]).len() == self.page_urls[i].len()
        &&& self.names.len() == self.urls.len()
        &&& self.stage == Stage::Discovering ==> self.pages.len() == 0
        &&& (self.stage == Stage::Discovering || self.stage == Stage::Enumerating) ==> {
            &&& self.names.len() == 0
            &&& self.book_pool.states.len() == 0
        }
        &&& (self.stage == Stage::Downloading || self.stage == Stage::Done) ==> {
            &&& self.page_pool.done()
            &&& self.names == concat_all(self.page_names)
            &&& self.urls == concat_all(self.page_urls)
            &&& self.book_pool.states.len() == self.names.len()
        }
        &&& self.stage == Stage::Done ==> self.book_pool.done()
    }
}

/// The decisions of one crawl run.
pub struct Coordinator {
    stage: Stage,
    bound: usize,
    pages: Vec<String>,
    page_pool: TaskPool,
    page_names: Vec<Vec<String>>,
    page_urls: Vec<Vec<String>>,
    names: Vec<String>,
    urls: Vec<String>,
    book_pool: TaskPool,
}

impl View for Coordinator {
    type V = RunView;

    closed spec fn view(&self) -> RunView {
        RunView {
            stage: self.stage,
            bound: self.bound as nat,
            pages: self.pages.deep_view(),
            page_pool: self.page_pool@,
            page_names: self.page_names.deep_view(),
            page_urls: self.page_urls.deep_view(),
            names: self.names.deep_view(),
            urls: self.urls.deep_view(),
            book_pool: self.book_pool@,
        }
    }
}

impl Coordinator {
    /// A run that waits for its listing pages and lets at most `bound` units
    /// of each stage be in flight at once.
    pub fn new(bound: usize) -> (r: Coordinator)
        requires
            bound > 0,
        ensures
            r@.wf(),
            r@.stage == Stage::Discovering,
            r@.bound == bound,
    {
        let r = Coordinator {
            stage: Stage::Discovering,
            bound,
            pages: Vec::new(),
            page_pool: TaskPool::new(0, bound),
            page_names: Vec::new(),
            page_urls: Vec::new(),
            names: Vec::new(),
            urls: Vec::new(),
            book_pool: TaskPool::new(0, bound),
        };
        assert(r@.pages =~= Seq::<Seq<char>>::empty());
        assert(r@.names =~= Seq::<Seq<char>>::empty());
        assert(r@.urls =~= Seq::<Seq<char>>::empty());
        assert(r@.page_names =~= Seq::<Seq<Seq<char>>>::empty());
        assert(r@.page_urls =~= Seq::<Seq<Seq<char>>>::empty());
        r
    }

    /// Takes the discovered listing pages, in discovery order, and starts
    /// enumerating them.
    pub fn pages_discovered(&mut self, pages: Vec<String>)
        requires
            old(self)@.wf(),
            old(self)@.stage == Stage::Discovering,
        ensures
            final(self)@.wf(),
            final(self)@.stage == Stage::Enumerating,
            final(self)@.bound == old(self)@.bound,
            final(self)@.pages == pages.deep_view(),
            final(self)@.page_pool.states == all_pending(pages@.len()),
            final(self)@.page_pool.next == 0,
            final(self)@.page_pool.in_flight == 0,
            final(self)@.page_pool.succeeded == 0,
            final(self)@.page_pool.failed == 0,
            final(self)@.page_names == empty_parts(pages@.len()),
            final(self)@.page_urls == empty_parts(pages@.len()),
    {
        let n = pages.len();
        let mut parts: Vec<Vec<String>> = Vec::new();
        let mut parts2: Vec<Vec<String>> = Vec::new();
        let mut i: usize = 0;
        while i < n
            invariant
                i <= n,
                parts.deep_view() == empty_parts(i as nat),
                parts2.deep_view() == empty_parts(i as nat),
            decreases n - i,
        {
            let ghost names_before = parts.deep_view();
            let ghost urls_before = parts2.deep_view();
            let e1: Vec<String> = Vec::new();
            let e2: Vec<String> = Vec::new();
            assert(e1.deep_view() =~= Seq::<Seq<char>>::empty());
            assert(e2.deep_view() =~= Seq::<Seq<char>>::empty());
            let ghost d1 = e1.deep_view();
            let ghost d2 = e2.deep_view();
            parts.push(e1);
            parts2.push(e2);
            assert(parts.deep_view() =~= names_before.push(d1));
            assert(parts2.deep_view() =~= urls_before.push(d2));
            i = i + 1;
            assert(parts.deep_view() =~= empty_parts(i as nat));
            assert(parts2.deep_view() =~= empty_parts(i as nat));
        }
        self.page_pool = TaskPool::new(n, self.bound);
        self.pages = pages;
        self.page_names = parts;
        self.page_urls = parts2;
        self.stage = Stage::Enumerating;
    }

    /// Decides what the caller does next: enumerate the next listing page or
    /// download the next entry while fewer than `bound` units of the stage are
    /// in flight, wait for one in flight, or finish. Downloading starts once
    /// every listing page has been enumerated, over the entries of all pages
    /// in page order.
    pub fn next_action(&mut self) -> (r: Action)
        requires
            old(self)@.wf(),
            old(self)@.stage != Stage::Discovering,
        ensures
            final(self)@.wf(),
            final(self)@.bound == old(self)@.bound,
            final(self)@.pages == old(self)@.pages,
            final(self)@.page_pool.in_flight <= final(self)@.bound,
            final(self)@.book_pool.in_flight <= final(self)@.bound,
            final(self)@.page_names == old(self)@.page_names,
            final(self)@.page_urls == old(self)@.page_urls,
            !(r is EnumeratePage) ==> final(self)@.page_pool == old(self)@.page_pool,
            r is EnumeratePage ==> {
                let i = r->EnumeratePage_index;
                &&& old(self)@.stage == Stage::Enumerating
                &&& final(self)@.stage == Stage::Enumerating
                &&& i == old(self)@.page_pool.next
                &&& i < old(self)@.pages.len()
                &&& r->EnumeratePage_url@ == old(self)@.pages[i as int]
                &&& final(self)@.page_pool.states == old(self)@.page_pool.states.update(i as int, TaskState::Running)
                &&& final(self)@.page_pool.in_flight == old(self)@.page_pool.in_flight + 1
            },
            r is Download ==> {
                let i = r->Download_index;
                &&& final(self)@.stage == Stage::Downloading
                &&& i == if old(self)@.stage == Stage::Downloading { old(self)@.book_pool.next } else { 0 }
                &&& i < final(self)@.names.len()
                &&& r->Download_name@ == final(self)@.names[i as int]
                &&& r->Download_url@ == final(self)@.urls[i as int]
                &&& final(self)@.book_pool.states[i as int] == TaskState::Running
                &&& final(self)@.book_pool.next == i + 1
            },
            r is Wait ==> {
                &&& final(self)@ == old(self)@
                &&& old(self)@.stage == Stage::Enumerating ==> {
                    &&& old(self)@.page_pool.in_flight > 0
                    &&& (old(self)@.page_pool.next == old(self)@.pages.len()
                        || old(self)@.page_pool.in_flight == old(self)@.bound)
                }
                &&& old(self)@.stage == Stage::Downloading ==> {
                    &&& old(self)@.book_pool.in_flight > 0
                    &&& (old(self)@.book_pool.next == old(self)@.names.len()
                        || old(self)@.book_pool.in_flight == old(self)@.bound)
                }
                &&& old(self)@.stage != Stage::Done
            },
            r is Finish ==> final(self)@.stage == Stage::Done,
    {
        if self.stage == Stage::Enumerating {
            match self.page_pool.launch() {
                Some(i) => {
                    return Action::EnumeratePage { index: i, url: self.pages[i].clone() };
                },
                None => {},
            }
            if !self.page_pool.is_done() {
                return Action::Wait;
            }
            let names = flatten(&self.page_names);
            let urls = flatten(&self.page_urls);
            proof {
                lemma_concat_lengths(self.page_names.deep_view(), self.page_urls.deep_view());
            }
            self.book_pool = TaskPool::new(names.len(), self.bound);
            self.names = names;
            self.urls = urls;
            self.stage = Stage::Downloading;
        }
        if self.stage == Stage::Downloading {
            match self.book_pool.launch() {
                Some(i) => {
                    assert(self.names.deep_view()[i as int] == self.names@[i as int]@);
                    assert(self.urls.deep_view()[i as int] == self.urls@[i as int]@);
                    return Action::Download {
                        index: i,
                        name: self.names[i].clone(),
                        url: self.urls[i].clone(),
                    };
                },
                None => {},
            }
            if !self.book_pool.is_done() {
                return Action::Wait;
            }
            self.stage = Stage::Done;
        }
        Action::Finish
    }

    /// Records that the listing page `index` was enumerated, with its entry
    /// names and URLs, or that it failed and contributes no entries.
    pub fn page_done(&mut self, index: usize, found: Option<PageEntries>)
        requires
            old(self)@.wf(),
            old(self)@.stage == Stage::Enumerating,
            index < old(self)@.pages.len(),
            old(self)@.page_pool.states[index as int] == TaskState::Running,
            found is Some ==> found->0.names@.len() == found->0.urls@.len(),
        ensures
            final(self)@.wf(),
            final(self)@.stage == Stage::Enumerating,
            final(self)@.bound == old(self)@.bound,
            final(self)@.pages == old(self)@.pages,
            final(self)@.page_pool.states == old(self)@.page_pool.states.update(
                index as int,
                if found is Some { TaskState::Succeeded } else { TaskState::Failed },
            ),
            final(self)@.page_pool.next == old(self)@.page_pool.next,
            final(self)@.page_pool.in_flight == old(self)@.page_pool.in_flight - 1,
            final(self)@.page_names == old(self)@.page_names.update(index as int, match found {
                Some(e) => e.names.deep_view(),
                None => Seq::<Seq<char>>::empty(),
            }),
            final(self)@.page_urls == old(self)@.page_urls.update(index as int, match found {
                Some(e) => e.urls.deep_view(),
                None => Seq::<Seq<char>>::empty(),
            }),
    {
        let ok = found.is_some();
        let (names, urls) = match found {
            Some(e) => (e.names, e.urls),
            None => (Vec::new(), Vec::new()),
        };
        assert(!ok ==> names.deep_view() =~= Seq::<Seq<char>>::empty());
        assert(!ok ==> urls.deep_view() =~= Seq::<Seq<char>>::empty());
        let ghost pn = self.page_names.deep_view();
        let ghost pu = self.page_urls.deep_view();
        let ghost nv = names.deep_view();
        let ghost uv = urls.deep_view();
        self.page_pool.finish(index, ok);
        self.page_names.set(index, names);
        self.page_urls.set(index, urls);
        assert(self.page_names.deep_view() =~= pn.update(index as int, nv));
        assert(self.page_urls.deep_view() =~= pu.update(index as int, uv));
    }

    /// Records that the download of the entry `index` finished, with success
    /// when `ok`.
    pub fn book_done(&mut self, index: usize, ok: bool)
        requires
            old(self)@.wf(),
            old(self)@.stage == Stage::Downloading,
            index < old(self)@.names.len(),
            old(self)@.book_pool.states[index as int] == TaskState::Running,
        ensures
            final(self)@.wf(),
            final(self)@.stage == Stage::Downloading,
            final(self)@.bound == old(self)@.bound,
            final(self)@.names == old(self)@.names,
            final(self)@.urls == old(self)@.urls,
            final(self)@.book_pool.states == old(self)@.book_pool.states.update(
                index as int,
                if ok { TaskState::Succeeded } else { TaskState::Failed },
            ),
            final(self)@.book_pool.next == old(self)@.book_pool.next,
            final(self)@.book_pool.in_flight == old(self)@.book_pool.in_flight - 1,
            final(self)@.book_pool.succeeded == old(self)@.book_pool.succeeded + if ok { 1nat } else { 0nat },
            final(self)@.book_pool.failed == old(self)@.book_pool.failed + if ok { 0nat } else { 1nat },
    {
        self.book_pool.finish(index, ok);
    }

    /// The stage the run is in.
    pub fn stage(&self) -> (r: Stage)
        ensures
            r == self@.stage,
    {
        self.stage
    }

    /// The listing pages, in discovery order.
    pub fn pages(&self) -> (r: &Vec<String>)
        ensures
            r.deep_view() == self@.pages,
    {
        &self.pages
    }

    /// The display names of all entries, page by page in discovery order.
    pub fn names(&self) -> (r: &Vec<String>)
        ensures
            r.deep_view() == self@.names,
    {
        &self.names
    }

    /// The content-root URLs of all entries, position by position with
    /// `names`.
    pub fn urls(&self) -> (r: &Vec<String>)
        ensures
            r.deep_view() == self@.urls,
    {
        &self.urls
    }

    /// Number of listing pages whose enumeration failed.
    pub fn failed_pages(&self) -> (r: usize)
        ensures
            r == self@.page_pool.failed,
    {
        self.page_pool.failed()
    }

    /// Number of entries downloaded with success.
    pub fn succeeded(&self) -> (r: usize)
        ensures
            r == self@.book_pool.succeeded,
    {
        self.book_pool.succeeded()
    }

    /// Number of entries whose download failed.
    pub fn failed(&self) -> (r: usize)
        ensures
            r == self@.book_pool.failed,
    {
        self.book_pool.failed()
    }

    /// Number of units of the current stage in flight.
    pub fn in_flight(&self) -> (r: usize)
        requires
            self@.wf(),
        ensures
            r <= self@.bound,
            self@.stage == Stage::Enumerating ==> r == self@.page_pool.in_flight,
            self@.stage != Stage::Enumerating ==> r == self@.book_pool.in_flight,
    {
        if self.stage == Stage::Enumerating {
            self.page_pool.in_flight()
        } else {
            self.book_pool.in_flight()
        }
    }
}

/// When a run is done, every discovered entry either succeeded or failed: the
/// successes are the discovered entries less the failures.
pub proof fn lemma_download_tally(run: RunView)
    requires
        run.wf(),
        run.stage == Stage::Done,
    ensures
        run.book_pool.succeeded + run.book_pool.failed == run.names.len(),
        run.book_pool.succeeded == run.names.len() - run.book_pool.failed,
{
    lemma_count_absent(run.book_pool.states, TaskState::Pending);
    lemma_count_total(run.book_pool.states);
}

/// However the run is driven, no more than `bound` units of a stage are in
/// flight at once.
pub proof fn lemma_bounded_in_flight(run: RunView)
    requires
        run.wf(),
    ensures
        run.page_pool.in_flight <= run.bound,
        run.book_pool.in_flight <= run.bound,
        run.page_pool.in_flight == crate::pool::count(run.page_pool.states, TaskState::Running),
        run.book_pool.in_flight == crate::pool::count(run.book_pool.states, TaskState::Running),
{
}

} // verus!
