//! The mathematical model of one search.
//!
//! A search is a little machine: its state is the running counters, the
//! hits collected so far, and an optional key whose contents are awaited;
//! its inputs are the listing pages and, per key, the outcome of a content
//! fetch.  The spec functions here define one step per event, and
//! [`spec_scan`] folds them over a whole listing against a deterministic
//! content source.  The executable engine is proved to take exactly these
//! steps, and the library's laws are proved about [`spec_scan`].

use vstd::prelude::*;

use crate::pattern::regex_matches;
use crate::request::ErrView;
use crate::request::ReqView;
use crate::request::opt_string_view;

verus! {

/// A deterministic content source: the first entry whose key matches is the
/// outcome of fetching that key, `None` standing for a failed fetch or a
/// body that does not decode as text.
pub type Oracle = Seq<(Seq<char>, Option<Seq<char>>)>;

/// Running totals of one search.
#[verifier::ext_equal]
pub ghost struct Acc {
    /// The hits, in the order first observed across pages.
    pub keys: Seq<Seq<char>>,
    /// Keys scanned: every key judged, hit or not (skipped descriptors
    /// without a key string are not counted).
    pub n_scanned: nat,
    /// Keys that passed both filter stages.
    pub n_hits: nat,
    /// Content fetches issued.
    pub n_content_fetches: nat,
    /// Listing pages consumed.
    pub n_pages: nat,
}

pub open spec fn acc_init() -> Acc {
    Acc { keys: Seq::empty(), n_scanned: 0, n_hits: 0, n_content_fetches: 0, n_pages: 0 }
}

/// Whether the scan is still going, stopped at a volume limit, or aborted.
pub ghost enum StatusView {
    Running,
    Stopped,
    Failed { err: ErrView },
}

/// The abstract state of the engine.
#[verifier::ext_equal]
pub ghost struct EngineView {
    pub req: ReqView,
    pub acc: Acc,
    /// The key that passed the key stage and now awaits its contents.
    pub pending: Option<Seq<char>>,
    pub status: StatusView,
}

/// What one step reported back to the caller.
pub ghost enum StepView {
    /// A descriptor without a key string was tolerated and skipped.
    Skipped,
    /// A key was fully judged.
    Scanned { hit: bool, log_hit: bool, log_progress: bool, limit_reached: bool },
    /// The key passed the key stage; its contents must be fetched next.
    NeedContent,
    /// The search aborted.
    Failed { err: ErrView },
}

/// A limit of `n` stops the scan once the counter has reached `n`, not only
/// after exceeding it.
pub open spec fn limits_reached(req: ReqView, n_scanned: nat, n_hits: nat) -> bool {
    ||| (req.max_keys matches Some(m) && n_scanned >= m)
    ||| (req.max_hits matches Some(m) && n_hits >= m)
}

/// An absent key pattern matches everything.
pub open spec fn key_passes(req: ReqView, key: Seq<char>) -> bool {
    match req.key_pattern {
        Some(p) => regex_matches(p, key),
        None => true,
    }
}

/// An absent content pattern matches everything.
pub open spec fn content_matches_text(req: ReqView, text: Seq<char>) -> bool {
    match req.content_pattern {
        Some(p) => regex_matches(p, text),
        None => true,
    }
}

/// The state a search starts in: zero counters, and already stopped when a
/// limit of zero makes any scanning pointless.
pub open spec fn init_view(req: ReqView) -> EngineView {
    EngineView {
        req,
        acc: acc_init(),
        pending: None,
        status: if limits_reached(req, 0, 0) {
            StatusView::Stopped
        } else {
            StatusView::Running
        },
    }
}

/// One key has been fully judged: record the hit, count the key as scanned,
/// and stop if a limit is now reached.
pub open spec fn spec_finish_key(v: EngineView, key: Seq<char>, hit: bool) -> (EngineView, StepView) {
    let acc = Acc {
        keys: if hit {
            v.acc.keys.push(key)
        } else {
            v.acc.keys
        },
        n_hits: if hit {
            v.acc.n_hits + 1
        } else {
            v.acc.n_hits
        },
        n_scanned: v.acc.n_scanned + 1,
        ..v.acc
    };
    let limit = limits_reached(v.req, acc.n_scanned, acc.n_hits);
    (
        EngineView {
            acc,
            pending: None,
            status: if limit {
                StatusView::Stopped
            } else {
                StatusView::Running
            },
            ..v
        },
        StepView::Scanned {
            hit,
            log_hit: hit && v.req.log_hits,
            log_progress: acc.n_scanned % v.req.log_interval == 0,
            limit_reached: limit,
        },
    )
}

/// A page arrived: count it, and abort when its contents are unreadable and
/// that is not tolerated.  A tolerated unreadable page contributes no keys.
pub open spec fn spec_on_page(v: EngineView, readable: bool) -> EngineView {
    let v1 = EngineView { acc: Acc { n_pages: v.acc.n_pages + 1, ..v.acc }, ..v };
    if readable || v.req.tolerate_response_error {
        v1
    } else {
        EngineView { status: StatusView::Failed { err: ErrView::UnreadableListing }, ..v1 }
    }
}

/// One key descriptor is judged.  A descriptor without a key string is
/// skipped or aborts the search, per `tolerate_key_error`.  A key that fails
/// the key stage never has its contents fetched; one that passes while a
/// content pattern is configured becomes pending, and the fetch it forces is
/// counted here.
pub open spec fn spec_on_key(v: EngineView, desc: Option<Seq<char>>) -> (EngineView, StepView) {
    match desc {
        None => {
            if v.req.tolerate_key_error {
                (v, StepView::Skipped)
            } else {
                (
                    EngineView { status: StatusView::Failed { err: ErrView::MissingKey }, ..v },
                    StepView::Failed { err: ErrView::MissingKey },
                )
            }
        },
        Some(key) => {
            if !key_passes(v.req, key) {
                spec_finish_key(v, key, false)
            } else if v.req.content_pattern is Some {
                (
                    EngineView {
                        acc: Acc { n_content_fetches: v.acc.n_content_fetches + 1, ..v.acc },
                        pending: Some(key),
                        ..v
                    },
                    StepView::NeedContent,
                )
            } else {
                spec_finish_key(v, key, true)
            }
        },
    }
}

/// The contents of the pending key arrived (or failed to): the key is a hit
/// exactly when the text matches the content pattern; a failed fetch makes
/// the single key a non-hit or aborts the search, per `tolerate_key_error`.
pub open spec fn spec_on_content(v: EngineView, content: Option<Seq<char>>) -> (EngineView, StepView)
    recommends
        v.pending is Some,
{
    match v.pending {
        Some(key) => match content {
            Some(text) => spec_finish_key(v, key, content_matches_text(v.req, text)),
            None => {
                if v.req.tolerate_key_error {
                    spec_finish_key(v, key, false)
                } else {
                    (
                        EngineView {
                            pending: None,
                            status: StatusView::Failed {
                                err: ErrView::ContentUnavailable { key },
                            },
                            ..v
                        },
                        StepView::Failed { err: ErrView::ContentUnavailable { key } },
                    )
                }
            },
        },
        None => (v, StepView::Skipped),
    }
}

/// The first entry of the source that names `key`, if any.
pub open spec fn oracle_lookup(oracle: Oracle, key: Seq<char>) -> Option<Seq<char>>
    decreases oracle.len(),
{
    if oracle.len() == 0 {
        None
    } else if oracle[0].0 == key {
        oracle[0].1
    } else {
        oracle_lookup(oracle.drop_first(), key)
    }
}

/// One descriptor judged to completion against a deterministic content
/// source: the key step, then — only when a fetch was forced — the content
/// step on what the source holds for the key.
pub open spec fn scan_desc(v: EngineView, oracle: Oracle, desc: Option<Seq<char>>) -> EngineView {
    let r = spec_on_key(v, desc);
    if r.1 is NeedContent {
        match r.0.pending {
            Some(key) => spec_on_content(r.0, oracle_lookup(oracle, key)).0,
            None => r.0,
        }
    } else {
        r.0
    }
}

/// A page's descriptors judged in listing order, halting at the first step
/// that stops or aborts the scan: the remainder of the page is not
/// processed.
pub open spec fn scan_descs(v: EngineView, oracle: Oracle, descs: Seq<Option<Seq<char>>>) -> EngineView
    decreases descs.len(),
{
    if descs.len() == 0 || !(v.status is Running) {
        v
    } else {
        scan_descs(scan_desc(v, oracle, descs[0]), oracle, descs.drop_first())
    }
}

/// One listing page: readable contents and whether more pages follow.
#[verifier::ext_equal]
pub ghost struct PageView {
    pub contents: Option<Seq<Option<Seq<char>>>>,
    pub is_truncated: bool,
}

/// How a scan over a given listing ends.
pub ghost enum ScanEnd {
    /// An untruncated page was exhausted, or a volume limit was reached.
    Finished,
    /// The last given page was truncated but no further page was given.
    OutOfPages,
    /// The scan aborted.
    Failed { err: ErrView },
}

/// The whole pagination loop: pages are consumed in order, each processed to
/// completion unless a limit or an abort halts the scan, and no page is
/// fetched after an untruncated one.
pub open spec fn scan_pages(v: EngineView, oracle: Oracle, pages: Seq<PageView>) -> (
    EngineView,
    ScanEnd,
)
    recommends
        v.status is Running,
    decreases pages.len(),
{
    if pages.len() == 0 {
        (v, ScanEnd::OutOfPages)
    } else {
        let p = pages[0];
        let v1 = spec_on_page(v, p.contents is Some);
        let v2 = match p.contents {
            Some(descs) => scan_descs(v1, oracle, descs),
            None => v1,
        };
        match v2.status {
            StatusView::Failed { err } => (v2, ScanEnd::Failed { err }),
            StatusView::Stopped => (v2, ScanEnd::Finished),
            StatusView::Running => {
                if p.is_truncated {
                    scan_pages(v2, oracle, pages.drop_first())
                } else {
                    (v2, ScanEnd::Finished)
                }
            },
        }
    }
}

/// A whole search over a deterministic listing and content source.
pub open spec fn spec_scan(req: ReqView, oracle: Oracle, pages: Seq<PageView>) -> (
    EngineView,
    ScanEnd,
) {
    let v0 = init_view(req);
    if v0.status is Running {
        scan_pages(v0, oracle, pages)
    } else {
        (v0, ScanEnd::Finished)
    }
}

/// The keys a page's descriptors carry, in order.
pub open spec fn present_keys(descs: Seq<Option<Seq<char>>>) -> Seq<Seq<char>>
    decreases descs.len(),
{
    if descs.len() == 0 {
        Seq::empty()
    } else {
        match descs[0] {
            Some(key) => seq![key] + present_keys(descs.drop_first()),
            None => present_keys(descs.drop_first()),
        }
    }
}

/// The keys one page successfully lists.
pub open spec fn page_keys(p: PageView) -> Seq<Seq<char>> {
    match p.contents {
        Some(descs) => present_keys(descs),
        None => Seq::empty(),
    }
}

/// Every key the listing successfully delivers, in listing order, up to and
/// including the first untruncated page.
pub open spec fn listed_keys(pages: Seq<PageView>) -> Seq<Seq<char>>
    decreases pages.len(),
{
    if pages.len() == 0 {
        Seq::empty()
    } else if pages[0].is_truncated {
        page_keys(pages[0]) + listed_keys(pages.drop_first())
    } else {
        page_keys(pages[0])
    }
}


/// How many descriptors the listing carries in total, unreadable pages
/// contributing none.
pub open spec fn total_descs(pages: Seq<PageView>) -> nat
    decreases pages.len(),
{
    if pages.len() == 0 {
        0
    } else {
        (match pages[0].contents {
            Some(descs) => descs.len(),
            None => 0,
        }) + total_descs(pages.drop_first())
    }
}

/// The view of a list of hits.
pub open spec fn keys_view(keys: Seq<String>) -> Seq<Seq<char>> {
    keys.map_values(|k: String| k@)
}

/// The view of a page's descriptor list.
pub open spec fn descs_view(descs: Seq<Option<String>>) -> Seq<Option<Seq<char>>> {
    descs.map_values(|d: Option<String>| opt_string_view(d))
}

} // verus!
