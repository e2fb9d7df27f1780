//! A whole search over a deterministic listing and content source.
//!
//! [`run_search`] drives the [`Engine`] over pages and contents given as
//! plain data and is proved to return exactly what [`spec_scan`] prescribes.
//! It is the pagination loop of a live search with the network replaced by
//! values, so everything the model says about a scan — filtering, lazy
//! fetching, limits, tolerance — holds of its result.

use vstd::prelude::*;

use crate::engine::Engine;
use crate::engine::SearchReport;
use crate::engine::StepResult;
use crate::engine::report_view;
use crate::model::Oracle;
use crate::model::PageView;
use crate::model::ScanEnd;
use crate::model::StatusView;
use crate::model::descs_view;
use crate::model::oracle_lookup;
use crate::model::scan_descs;
use crate::model::scan_pages;
use crate::model::spec_scan;
use crate::model::total_descs;
use crate::request::SearchError;
use crate::request::SearchRequest;
use crate::request::opt_string_view;

verus! {

/// One listing page as the engine sees it: the descriptors' key strings (or
/// `None` where a descriptor carries no retrievable key), or `None` when the
/// page's contents are unreadable; and whether more pages follow.
pub struct PageData {
    pub contents: Option<Vec<Option<String>>>,
    pub is_truncated: bool,
}

/// The view of one page.
pub open spec fn page_view(p: &PageData) -> PageView {
    PageView {
        contents: match p.contents {
            Some(descs) => Some(descs_view(descs@)),
            None => None,
        },
        is_truncated: p.is_truncated,
    }
}

/// The view of a listing.
pub open spec fn pages_view(pages: Seq<PageData>) -> Seq<PageView> {
    pages.map_values(|p: PageData| page_view(&p))
}

/// One entry of a deterministic content source: fetching `key` yields the
/// decoded text `body`, or fails when `body` is `None`.
pub struct ContentEntry {
    pub key: String,
    pub body: Option<String>,
}

/// The view of one content entry.
pub open spec fn entry_view(e: &ContentEntry) -> (Seq<char>, Option<Seq<char>>) {
    (e.key@, opt_string_view(e.body))
}

/// The view of a content source.
pub open spec fn oracle_view(entries: Seq<ContentEntry>) -> Oracle {
    entries.map_values(|e: ContentEntry| entry_view(&e))
}

/// What the source holds for `key`: the body of the first entry naming it, a
/// missing entry counting as a failed fetch.
#[verifier::loop_isolation(false)]
fn lookup_content(entries: &Vec<ContentEntry>, key: &String) -> (r: Option<String>)
    ensures
        opt_string_view(r) == oracle_lookup(oracle_view(entries@), key@),
{
    let ghost ov = oracle_view(entries@);
    proof {
        assert(ov.skip(0) =~= ov);
    }
    let mut i: usize = 0;
    while i < entries.len()
        invariant
            i <= entries.len(),
            oracle_lookup(ov.skip(i as int), key@) == oracle_lookup(ov, key@),
        decreases entries.len() - i,
    {
        let e = &entries[i];
        proof {
            assert(ov.skip(i as int)[0] == ov[i as int]);
        }
        if e.key == *key {
            match &e.body {
                Some(s) => {
                    return Some(s.clone());
                },
                None => {
                    return None;
                },
            }
        }
        proof {
            assert(ov.skip(i as int).drop_first() =~= ov.skip(i as int + 1));
        }
        i = i + 1;
    }
    proof {
        assert(ov.skip(entries.len() as int) =~= Seq::<(Seq<char>, Option<Seq<char>>)>::empty());
    }
    None
}

/// Judges one page's descriptors in listing order, fetching contents from
/// the source exactly where the engine asks, and halting at the first step
/// that stops or aborts the scan.
fn process_descs(engine: &mut Engine, descs: &Vec<Option<String>>, contents: &Vec<ContentEntry>)
    requires
        old(engine).inv(),
        old(engine)@.status is Running,
        old(engine)@.pending is None,
        old(engine)@.acc.n_scanned + descs@.len() < usize::MAX,
        old(engine)@.acc.n_content_fetches + descs@.len() < usize::MAX,
    ensures
        final(engine).inv(),
        final(engine)@ == scan_descs(old(engine)@, oracle_view(contents@), descs_view(descs@)),
        final(engine)@.status is Running ==> final(engine)@.pending is None,
        final(engine)@.acc.n_scanned <= old(engine)@.acc.n_scanned + descs@.len(),
        final(engine)@.acc.n_content_fetches <= old(engine)@.acc.n_content_fetches + descs@.len(),
        final(engine)@.acc.n_pages == old(engine)@.acc.n_pages,
{
    let ghost base = old(engine)@;
    let ghost ov = oracle_view(contents@);
    let ghost dv = descs_view(descs@);
    let ghost goal = scan_descs(old(engine)@, ov, dv);
    proof {
        assert(dv.skip(0) =~= dv);
    }
    let mut j: usize = 0;
    while j < descs.len()
        invariant_except_break
            j <= descs.len(),
            engine.inv(),
            engine@.status is Running,
            engine@.pending is None,
            ov == oracle_view(contents@),
            dv == descs_view(descs@),
            goal == scan_descs(base, ov, dv),
            base.acc.n_scanned + descs@.len() < usize::MAX,
            base.acc.n_content_fetches + descs@.len() < usize::MAX,
            scan_descs(engine@, ov, dv.skip(j as int)) == goal,
            engine@.acc.n_scanned <= base.acc.n_scanned + j,
            engine@.acc.n_content_fetches <= base.acc.n_content_fetches + j,
            engine@.acc.n_pages == base.acc.n_pages,
        ensures
            engine.inv(),
            engine@ == goal,
            engine@.status is Running ==> engine@.pending is None,
            engine@.acc.n_scanned <= base.acc.n_scanned + descs@.len(),
            engine@.acc.n_content_fetches <= base.acc.n_content_fetches + descs@.len(),
            engine@.acc.n_pages == base.acc.n_pages,
        decreases descs.len() - j,
    {
        proof {
            assert(dv.skip(j as int)[0] == dv[j as int]);
            assert(dv.skip(j as int).drop_first() =~= dv.skip(j as int + 1));
        }
        let desc = match &descs[j] {
            Some(s) => Some(s.clone()),
            None => None,
        };
        let step = engine.on_key(desc);
        let halted: bool = match step {
            StepResult::Skipped => false,
            StepResult::Scanned(note) => note.limit_reached,
            StepResult::Failed(_) => true,
            StepResult::NeedContent => {
                let outcome = match &descs[j] {
                    Some(s) => lookup_content(contents, s),
                    None => None,
                };
                let step2 = engine.on_content(outcome);
                match step2 {
                    StepResult::Scanned(note) => note.limit_reached,
                    _ => true,
                }
            },
        };
        if halted {
            proof {
                assert(scan_descs(engine@, ov, dv.skip(j as int + 1)) == engine@);
            }
            break ;
        }
        j = j + 1;
    }
}

/// Searches a deterministic listing against a deterministic content source:
/// the exact pagination loop of a live search, with pages and contents given
/// as values.  Pages are consumed in order up to the first untruncated one;
/// a listing that ends while still truncated is treated as exhausted.
/// Returns the hits in listing order with the final counters, or the error
/// the scan aborted with, exactly as [`spec_scan`] prescribes.
pub fn run_search(req: SearchRequest, pages: &Vec<PageData>, contents: &Vec<ContentEntry>) -> (r:
    Result<SearchReport, SearchError>)
    requires
        req.wf(),
        total_descs(pages_view(pages@)) < usize::MAX,
    ensures
        ({
            let outcome = spec_scan(req@, oracle_view(contents@), pages_view(pages@));
            &&& (outcome.1 matches ScanEnd::Failed { err } ==> (r matches Err(e) && e@ == err))
            &&& (!(outcome.1 is Failed) ==> (r matches Ok(rep) && report_view(&rep)
                == outcome.0.acc))
        }),
{
    let ghost ov = oracle_view(contents@);
    let ghost pv = pages_view(pages@);
    let ghost outcome = spec_scan(req@, ov, pv);
    let mut engine = Engine::new(req);
    if !engine.is_running() {
        return engine.into_result();
    }
    let mut i: usize = 0;
    proof {
        assert(pv.skip(0) =~= pv);
    }
    while i < pages.len()
        invariant_except_break
            i <= pages.len(),
            engine.inv(),
            engine@.status is Running,
            engine@.pending is None,
            ov == oracle_view(contents@),
            pv == pages_view(pages@),
            total_descs(pv) < usize::MAX,
            scan_pages(engine@, ov, pv.skip(i as int)) == outcome,
            engine@.acc.n_scanned + total_descs(pv.skip(i as int)) <= total_descs(pv),
            engine@.acc.n_content_fetches + total_descs(pv.skip(i as int)) <= total_descs(pv),
            engine@.acc.n_pages <= i,
        ensures
            engine.inv(),
            engine@.status matches StatusView::Failed { err } ==> outcome == (
            engine@,
            ScanEnd::Failed { err },
            ),
            !(engine@.status is Failed) ==> outcome.0 == engine@ && !(outcome.1 is Failed),
        decreases pages.len() - i,
    {
        proof {
            assert(pv.skip(i as int)[0] == pv[i as int]);
            assert(pv.skip(i as int).drop_first() =~= pv.skip(i as int + 1));
        }
        let page = &pages[i];
        let readable = page.contents.is_some();
        let ok = engine.on_page(readable);
        if !ok {
            break ;
        }
        match &page.contents {
            Some(descs) => {
                process_descs(&mut engine, descs, contents);
                if !engine.is_running() {
                    break ;
                }
            },
            None => {},
        }
        if !page.is_truncated {
            break ;
        }
        i = i + 1;
    }
    engine.into_result()
}

} // verus!
