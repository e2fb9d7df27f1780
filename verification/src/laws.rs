//! Laws of the search, proved once and for all about [`spec_scan`] — and so,
//! through the contract of [`crate::search::run_search`] and the step
//! contracts of [`crate::engine::Engine`], about every search the library
//! runs: a search with no patterns returns the whole listing; one with only
//! a key pattern returns exactly the matching subset, in listing order,
//! without fetching any content; content is fetched at most once per
//! key-stage match; over a deterministic content source the result is
//! exactly the two-stage filter of the listing; equal inputs give equal
//! outcomes; and the volume limits are never exceeded, a limit of zero
//! scanning nothing at all.

use vstd::prelude::*;

use crate::model::EngineView;
use crate::model::Oracle;
use crate::model::PageView;
use crate::model::ScanEnd;
use crate::model::StatusView;
use crate::model::content_matches_text;
use crate::model::init_view;
use crate::model::key_passes;
use crate::model::limits_reached;
use crate::model::listed_keys;
use crate::model::oracle_lookup;
use crate::model::page_keys;
use crate::model::present_keys;
use crate::model::scan_desc;
use crate::model::scan_descs;
use crate::model::scan_pages;
use crate::model::spec_scan;
use crate::request::ReqView;

verus! {

broadcast use vstd::seq_lib::group_seq_lib_default;

/// The subset of `keys` whose name passes the request's key stage, in order.
pub open spec fn matching(req: ReqView, keys: Seq<Seq<char>>) -> Seq<Seq<char>> {
    keys.filter(|k: Seq<char>| key_passes(req, k))
}

/// Filtering one key keeps or drops it.
proof fn lemma_matching_singleton(req: ReqView, k: Seq<char>)
    ensures
        key_passes(req, k) ==> matching(req, seq![k]) == seq![k],
        !key_passes(req, k) ==> matching(req, seq![k]) == Seq::<Seq<char>>::empty(),
{
    reveal_with_fuel(Seq::filter, 2);
    assert(seq![k].drop_last() =~= Seq::<Seq<char>>::empty());
    assert(seq![k].last() == k);
    if key_passes(req, k) {
        assert(Seq::<Seq<char>>::empty().push(k) =~= seq![k]);
    }
}

/// Without a key pattern the key stage keeps everything.
proof fn lemma_matching_all(req: ReqView, keys: Seq<Seq<char>>)
    requires
        req.key_pattern is None,
    ensures
        matching(req, keys) == keys,
    decreases keys.len(),
{
    reveal(Seq::filter);
    if keys.len() > 0 {
        lemma_matching_all(req, keys.drop_last());
        assert(keys.drop_last().push(keys.last()) =~= keys);
    }
}

/// Filtering the empty listing yields nothing.
proof fn lemma_matching_empty(req: ReqView)
    ensures
        matching(req, Seq::<Seq<char>>::empty()) == Seq::<Seq<char>>::empty(),
{
    reveal(Seq::filter);
}

/// Scanning a page's descriptors without a content pattern and without
/// limits fetches nothing, never stops at a limit, and — unless it aborts —
/// appends exactly the key-stage survivors to the result, in order.
proof fn lemma_scan_descs_key_stage(v: EngineView, oracle: Oracle, descs: Seq<Option<Seq<char>>>)
    requires
        v.status is Running,
        v.req.content_pattern is None,
        v.req.max_keys is None,
        v.req.max_hits is None,
    ensures
        ({
            let v2 = scan_descs(v, oracle, descs);
            &&& v2.req == v.req
            &&& v2.acc.n_content_fetches == v.acc.n_content_fetches
            &&& v2.acc.n_pages == v.acc.n_pages
            &&& !(v2.status is Stopped)
            &&& (v2.status is Running ==> v2.acc.keys == v.acc.keys + matching(
                v.req,
                present_keys(descs),
            ))
        }),
    decreases descs.len(),
{
    let v2 = scan_descs(v, oracle, descs);
    if descs.len() == 0 {
        assert(v2 == v);
        lemma_matching_empty(v.req);
        assert(v.acc.keys + Seq::<Seq<char>>::empty() =~= v.acc.keys);
    } else {
        let rest = descs.drop_first();
        let vd = scan_desc(v, oracle, descs[0]);
        assert(v2 == scan_descs(vd, oracle, rest));
        match descs[0] {
            None => {
                if v.req.tolerate_key_error {
                    assert(vd == v);
                    lemma_scan_descs_key_stage(v, oracle, rest);
                    assert(present_keys(descs) == present_keys(rest));
                } else {
                    assert(vd.status is Failed);
                    assert(v2 == vd);
                }
            },
            Some(key) => {
                let hit = key_passes(v.req, key);
                assert(!limits_reached(v.req, v.acc.n_scanned + 1, vd.acc.n_hits));
                assert(vd.status is Running);
                lemma_scan_descs_key_stage(vd, oracle, rest);
                lemma_matching_singleton(v.req, key);
                assert(present_keys(descs) == seq![key] + present_keys(rest));
                assert(matching(v.req, seq![key] + present_keys(rest)) == matching(v.req, seq![key])
                    + matching(v.req, present_keys(rest)));
                if hit {
                    assert(vd.acc.keys =~= v.acc.keys + seq![key]);
                    assert((v.acc.keys + seq![key]) + matching(v.req, present_keys(rest))
                        =~= v.acc.keys + (seq![key] + matching(v.req, present_keys(rest))));
                } else {
                    assert(Seq::<Seq<char>>::empty() + matching(v.req, present_keys(rest))
                        =~= matching(v.req, present_keys(rest)));
                }
            },
        }
    }
}

/// The page loop under the same conditions: no fetches, no limit stop, and —
/// unless it aborts — exactly the key-stage survivors of the listing.
proof fn lemma_scan_pages_key_stage(v: EngineView, oracle: Oracle, pages: Seq<PageView>)
    requires
        v.status is Running,
        v.req.content_pattern is None,
        v.req.max_keys is None,
        v.req.max_hits is None,
    ensures
        ({
            let r = scan_pages(v, oracle, pages);
            &&& r.0.req == v.req
            &&& r.0.acc.n_content_fetches == v.acc.n_content_fetches
            &&& (!(r.1 is Failed) ==> r.0.acc.keys == v.acc.keys + matching(
                v.req,
                listed_keys(pages),
            ))
        }),
    decreases pages.len(),
{
    let r = scan_pages(v, oracle, pages);
    if pages.len() == 0 {
        lemma_matching_empty(v.req);
        assert(v.acc.keys + Seq::<Seq<char>>::empty() =~= v.acc.keys);
    } else {
        let p = pages[0];
        let v1 = crate::model::spec_on_page(v, p.contents is Some);
        if v1.status is Running {
            let v2 = match p.contents {
                Some(descs) => scan_descs(v1, oracle, descs),
                None => v1,
            };
            match p.contents {
                Some(descs) => {
                    lemma_scan_descs_key_stage(v1, oracle, descs);
                },
                None => {
                    lemma_matching_empty(v.req);
                    assert(v.acc.keys + Seq::<Seq<char>>::empty() =~= v.acc.keys);
                },
            }
            if v2.status is Running {
                if p.is_truncated {
                    lemma_scan_pages_key_stage(v2, oracle, pages.drop_first());
                    assert(v2.acc.keys == v.acc.keys + matching(v.req, page_keys(p)));
                    assert(matching(v.req, page_keys(p) + listed_keys(pages.drop_first()))
                        == matching(v.req, page_keys(p)) + matching(
                        v.req,
                        listed_keys(pages.drop_first()),
                    ));
                    assert((v.acc.keys + matching(v.req, page_keys(p))) + matching(
                        v.req,
                        listed_keys(pages.drop_first()),
                    ) =~= v.acc.keys + (matching(v.req, page_keys(p)) + matching(
                        v.req,
                        listed_keys(pages.drop_first()),
                    )));
                }
            }
        }
    }
}

/// Law: a request with no key pattern and no content pattern (and no volume
/// limit) makes every successfully listed key a hit — unless the scan
/// aborts, its result is the whole listing, in listing order — and fetches
/// no content.
pub proof fn lemma_no_patterns_lists_everything(req: ReqView, oracle: Oracle, pages: Seq<PageView>)
    requires
        req.key_pattern is None,
        req.content_pattern is None,
        req.max_keys is None,
        req.max_hits is None,
    ensures
        ({
            let r = spec_scan(req, oracle, pages);
            &&& r.0.acc.n_content_fetches == 0
            &&& (!(r.1 is Failed) ==> r.0.acc.keys == listed_keys(pages))
        }),
{
    lemma_key_pattern_only_filters_listing(req, oracle, pages);
    lemma_matching_all(req, listed_keys(pages));
}

/// Law: a request with only a key pattern returns — unless the scan aborts —
/// exactly the subset of listed keys whose name matches the pattern, in
/// listing order, and content is never fetched.
pub proof fn lemma_key_pattern_only_filters_listing(
    req: ReqView,
    oracle: Oracle,
    pages: Seq<PageView>,
)
    requires
        req.content_pattern is None,
        req.max_keys is None,
        req.max_hits is None,
    ensures
        ({
            let r = spec_scan(req, oracle, pages);
            &&& r.0.acc.n_content_fetches == 0
            &&& (!(r.1 is Failed) ==> r.0.acc.keys == matching(req, listed_keys(pages)))
        }),
{
    let v0 = crate::model::init_view(req);
    assert(v0.status is Running);
    lemma_scan_pages_key_stage(v0, oracle, pages);
    let r = scan_pages(v0, oracle, pages);
    if !(r.1 is Failed) {
        assert(Seq::<Seq<char>>::empty() + matching(req, listed_keys(pages)) =~= matching(
            req,
            listed_keys(pages),
        ));
    }
}


/// Scanning descriptors issues at most one content fetch per key-stage
/// survivor, whatever the content outcomes and however early the scan halts.
proof fn lemma_scan_descs_fetch_bound(v: EngineView, oracle: Oracle, descs: Seq<Option<Seq<char>>>)
    requires
        v.status is Running,
    ensures
        ({
            let v2 = scan_descs(v, oracle, descs);
            &&& v2.req == v.req
            &&& v2.acc.n_content_fetches <= v.acc.n_content_fetches + matching(
                v.req,
                present_keys(descs),
            ).len()
        }),
    decreases descs.len(),
{
    let v2 = scan_descs(v, oracle, descs);
    if descs.len() == 0 {
        lemma_matching_empty(v.req);
    } else {
        let rest = descs.drop_first();
        let vd = scan_desc(v, oracle, descs[0]);
        assert(v2 == scan_descs(vd, oracle, rest));
        match descs[0] {
            None => {
                if v.req.tolerate_key_error {
                    assert(vd == v);
                    lemma_scan_descs_fetch_bound(v, oracle, rest);
                    assert(present_keys(descs) == present_keys(rest));
                } else {
                    assert(v2 == vd);
                }
            },
            Some(key) => {
                lemma_matching_singleton(v.req, key);
                assert(present_keys(descs) == seq![key] + present_keys(rest));
                assert(matching(v.req, present_keys(descs)) == matching(v.req, seq![key])
                    + matching(v.req, present_keys(rest)));
                assert(vd.acc.n_content_fetches <= v.acc.n_content_fetches + matching(
                    v.req,
                    seq![key],
                ).len());
                if vd.status is Running {
                    lemma_scan_descs_fetch_bound(vd, oracle, rest);
                } else {
                    assert(v2 == vd);
                }
            },
        }
    }
}

/// The page loop issues at most one content fetch per key-stage survivor of
/// the whole listing.
proof fn lemma_scan_pages_fetch_bound(v: EngineView, oracle: Oracle, pages: Seq<PageView>)
    requires
        v.status is Running,
    ensures
        ({
            let r = scan_pages(v, oracle, pages);
            &&& r.0.req == v.req
            &&& r.0.acc.n_content_fetches <= v.acc.n_content_fetches + matching(
                v.req,
                listed_keys(pages),
            ).len()
        }),
    decreases pages.len(),
{
    let r = scan_pages(v, oracle, pages);
    if pages.len() == 0 {
        lemma_matching_empty(v.req);
    } else {
        let p = pages[0];
        let v1 = crate::model::spec_on_page(v, p.contents is Some);
        if v1.status is Running {
            let v2 = match p.contents {
                Some(descs) => scan_descs(v1, oracle, descs),
                None => v1,
            };
            match p.contents {
                Some(descs) => {
                    lemma_scan_descs_fetch_bound(v1, oracle, descs);
                },
                None => {
                    lemma_matching_empty(v.req);
                },
            }
            if p.is_truncated {
                assert(matching(v.req, page_keys(p) + listed_keys(pages.drop_first())) == matching(
                    v.req,
                    page_keys(p),
                ) + matching(v.req, listed_keys(pages.drop_first())));
                if v2.status is Running {
                    lemma_scan_pages_fetch_bound(v2, oracle, pages.drop_first());
                }
            }
        }
    }
}

/// Law: content is fetched only for keys that already matched the key
/// pattern — the number of content fetches a scan issues never exceeds the
/// number of successfully listed keys that pass the key stage.
pub proof fn lemma_content_fetched_only_for_key_matches(
    req: ReqView,
    oracle: Oracle,
    pages: Seq<PageView>,
)
    ensures
        spec_scan(req, oracle, pages).0.acc.n_content_fetches <= matching(
            req,
            listed_keys(pages),
        ).len(),
{
    if !limits_reached(req, 0, 0) {
        lemma_scan_pages_fetch_bound(init_view(req), oracle, pages);
    }
}

/// Law: a search is a pure function of its request, listing, and content
/// source, so repeated searches with identical inputs produce identical,
/// identically ordered results.  (That the executable search returns exactly
/// `spec_scan` of its inputs is the contract of
/// [`crate::search::run_search`].)
pub proof fn lemma_scan_deterministic(
    req1: ReqView,
    req2: ReqView,
    oracle1: Oracle,
    oracle2: Oracle,
    pages1: Seq<PageView>,
    pages2: Seq<PageView>,
)
    requires
        req1 == req2,
        oracle1 == oracle2,
        pages1 == pages2,
    ensures
        spec_scan(req1, oracle1, pages1) == spec_scan(req2, oracle2, pages2),
{
}

/// Scanning descriptors keeps the counters within the limits it starts
/// under, and stays below them while it keeps running.
proof fn lemma_scan_descs_limits(v: EngineView, oracle: Oracle, descs: Seq<Option<Seq<char>>>)
    requires
        v.status is Running,
        !limits_reached(v.req, v.acc.n_scanned, v.acc.n_hits),
    ensures
        ({
            let v2 = scan_descs(v, oracle, descs);
            &&& v2.req == v.req
            &&& (v2.status is Running ==> !limits_reached(v.req, v2.acc.n_scanned, v2.acc.n_hits))
            &&& (v.req.max_keys matches Some(m) ==> v2.acc.n_scanned <= m)
            &&& (v.req.max_hits matches Some(m) ==> v2.acc.n_hits <= m)
        }),
    decreases descs.len(),
{
    let v2 = scan_descs(v, oracle, descs);
    if descs.len() > 0 {
        let rest = descs.drop_first();
        let vd = scan_desc(v, oracle, descs[0]);
        assert(v2 == scan_descs(vd, oracle, rest));
        if vd.status is Running {
            lemma_scan_descs_limits(vd, oracle, rest);
        } else {
            assert(v2 == vd);
        }
    }
}

/// The page loop keeps the counters within the limits it starts under.
proof fn lemma_scan_pages_limits(v: EngineView, oracle: Oracle, pages: Seq<PageView>)
    requires
        v.status is Running,
        !limits_reached(v.req, v.acc.n_scanned, v.acc.n_hits),
    ensures
        ({
            let r = scan_pages(v, oracle, pages);
            &&& r.0.req == v.req
            &&& (v.req.max_keys matches Some(m) ==> r.0.acc.n_scanned <= m)
            &&& (v.req.max_hits matches Some(m) ==> r.0.acc.n_hits <= m)
        }),
    decreases pages.len(),
{
    let r = scan_pages(v, oracle, pages);
    if pages.len() > 0 {
        let p = pages[0];
        let v1 = crate::model::spec_on_page(v, p.contents is Some);
        if v1.status is Running {
            let v2 = match p.contents {
                Some(descs) => scan_descs(v1, oracle, descs),
                None => v1,
            };
            match p.contents {
                Some(descs) => {
                    lemma_scan_descs_limits(v1, oracle, descs);
                },
                None => {},
            }
            if v2.status is Running && p.is_truncated {
                lemma_scan_pages_limits(v2, oracle, pages.drop_first());
            }
        }
    }
}

/// Law: volume limits are never exceeded — the final scanned count stays
/// within `max_keys` and the final hit count within `max_hits`, however the
/// scan ends; a limit reached mid-page halts it before the remainder of that
/// page.
pub proof fn lemma_limits_respected(req: ReqView, oracle: Oracle, pages: Seq<PageView>)
    ensures
        ({
            let r = spec_scan(req, oracle, pages);
            &&& (req.max_keys matches Some(m) ==> r.0.acc.n_scanned <= m)
            &&& (req.max_hits matches Some(m) ==> r.0.acc.n_hits <= m)
        }),
{
    if !limits_reached(req, 0, 0) {
        lemma_scan_pages_limits(init_view(req), oracle, pages);
    }
}

/// Law: a limit of zero yields an empty result with no page or content
/// activity at all — the scan stops before the first fetch.
pub proof fn lemma_zero_limit_yields_nothing(req: ReqView, oracle: Oracle, pages: Seq<PageView>)
    requires
        req.max_keys == Some(0nat) || req.max_hits == Some(0nat),
    ensures
        ({
            let r = spec_scan(req, oracle, pages);
            &&& r.1 is Finished
            &&& r.0.acc.keys == Seq::<Seq<char>>::empty()
            &&& r.0.acc.n_scanned == 0
            &&& r.0.acc.n_content_fetches == 0
            &&& r.0.acc.n_pages == 0
        }),
{
}


/// Whether a listed key ends up a hit: it passes the key stage, and — when a
/// content pattern is configured — the source yields its text and the text
/// matches.  A key whose fetch fails is no hit.
pub open spec fn scan_hit(req: ReqView, oracle: Oracle, key: Seq<char>) -> bool {
    &&& key_passes(req, key)
    &&& (req.content_pattern is Some ==> (oracle_lookup(oracle, key) matches Some(text)
        && content_matches_text(req, text)))
}

/// The subset of `keys` that end up hits, in order.
pub open spec fn hits_of(req: ReqView, oracle: Oracle, keys: Seq<Seq<char>>) -> Seq<Seq<char>> {
    keys.filter(|k: Seq<char>| scan_hit(req, oracle, k))
}

/// Judging one key keeps or drops it.
proof fn lemma_hits_singleton(req: ReqView, oracle: Oracle, k: Seq<char>)
    ensures
        scan_hit(req, oracle, k) ==> hits_of(req, oracle, seq![k]) == seq![k],
        !scan_hit(req, oracle, k) ==> hits_of(req, oracle, seq![k]) == Seq::<Seq<char>>::empty(),
{
    reveal_with_fuel(Seq::filter, 2);
    assert(seq![k].drop_last() =~= Seq::<Seq<char>>::empty());
    assert(seq![k].last() == k);
    if scan_hit(req, oracle, k) {
        assert(Seq::<Seq<char>>::empty().push(k) =~= seq![k]);
    }
}

/// Judging no keys yields no hits.
proof fn lemma_hits_empty(req: ReqView, oracle: Oracle)
    ensures
        hits_of(req, oracle, Seq::<Seq<char>>::empty()) == Seq::<Seq<char>>::empty(),
{
    reveal(Seq::filter);
}

/// Scanning a page's descriptors without limits never stops at a volume
/// limit and — unless it aborts — appends exactly the hits among the present
/// keys to the result, in order.
proof fn lemma_scan_descs_two_stage(v: EngineView, oracle: Oracle, descs: Seq<Option<Seq<char>>>)
    requires
        v.status is Running,
        v.req.max_keys is None,
        v.req.max_hits is None,
    ensures
        ({
            let v2 = scan_descs(v, oracle, descs);
            &&& v2.req == v.req
            &&& !(v2.status is Stopped)
            &&& (v2.status is Running ==> v2.acc.keys == v.acc.keys + hits_of(
                v.req,
                oracle,
                present_keys(descs),
            ))
        }),
    decreases descs.len(),
{
    let v2 = scan_descs(v, oracle, descs);
    if descs.len() == 0 {
        assert(v2 == v);
        lemma_hits_empty(v.req, oracle);
        assert(v.acc.keys + Seq::<Seq<char>>::empty() =~= v.acc.keys);
    } else {
        let rest = descs.drop_first();
        let vd = scan_desc(v, oracle, descs[0]);
        assert(v2 == scan_descs(vd, oracle, rest));
        match descs[0] {
            None => {
                if v.req.tolerate_key_error {
                    assert(vd == v);
                    lemma_scan_descs_two_stage(v, oracle, rest);
                    assert(present_keys(descs) == present_keys(rest));
                } else {
                    assert(vd.status is Failed);
                    assert(v2 == vd);
                }
            },
            Some(key) => {
                let hit = scan_hit(v.req, oracle, key);
                lemma_hits_singleton(v.req, oracle, key);
                assert(present_keys(descs) == seq![key] + present_keys(rest));
                assert(hits_of(v.req, oracle, seq![key] + present_keys(rest)) == hits_of(
                    v.req,
                    oracle,
                    seq![key],
                ) + hits_of(v.req, oracle, present_keys(rest)));
                if vd.status is Running {
                    assert(vd.acc.keys == if hit {
                        v.acc.keys.push(key)
                    } else {
                        v.acc.keys
                    });
                    lemma_scan_descs_two_stage(vd, oracle, rest);
                    if hit {
                        assert(vd.acc.keys =~= v.acc.keys + seq![key]);
                        assert((v.acc.keys + seq![key]) + hits_of(v.req, oracle, present_keys(rest))
                            =~= v.acc.keys + (seq![key] + hits_of(
                            v.req,
                            oracle,
                            present_keys(rest),
                        )));
                    } else {
                        assert(Seq::<Seq<char>>::empty() + hits_of(
                            v.req,
                            oracle,
                            present_keys(rest),
                        ) =~= hits_of(v.req, oracle, present_keys(rest)));
                    }
                } else {
                    assert(v2 == vd);
                }
            },
        }
    }
}

/// The page loop without limits — unless it aborts — collects exactly the
/// hits among the listed keys.
proof fn lemma_scan_pages_two_stage(v: EngineView, oracle: Oracle, pages: Seq<PageView>)
    requires
        v.status is Running,
        v.req.max_keys is None,
        v.req.max_hits is None,
    ensures
        ({
            let r = scan_pages(v, oracle, pages);
            &&& r.0.req == v.req
            &&& (!(r.1 is Failed) ==> r.0.acc.keys == v.acc.keys + hits_of(
                v.req,
                oracle,
                listed_keys(pages),
            ))
        }),
    decreases pages.len(),
{
    let r = scan_pages(v, oracle, pages);
    if pages.len() == 0 {
        lemma_hits_empty(v.req, oracle);
        assert(v.acc.keys + Seq::<Seq<char>>::empty() =~= v.acc.keys);
    } else {
        let p = pages[0];
        let v1 = crate::model::spec_on_page(v, p.contents is Some);
        if v1.status is Running {
            let v2 = match p.contents {
                Some(descs) => scan_descs(v1, oracle, descs),
                None => v1,
            };
            match p.contents {
                Some(descs) => {
                    lemma_scan_descs_two_stage(v1, oracle, descs);
                },
                None => {
                    lemma_hits_empty(v.req, oracle);
                    assert(v.acc.keys + Seq::<Seq<char>>::empty() =~= v.acc.keys);
                },
            }
            if v2.status is Running {
                if p.is_truncated {
                    lemma_scan_pages_two_stage(v2, oracle, pages.drop_first());
                    assert(v2.acc.keys == v.acc.keys + hits_of(v.req, oracle, page_keys(p)));
                    assert(hits_of(v.req, oracle, page_keys(p) + listed_keys(pages.drop_first()))
                        == hits_of(v.req, oracle, page_keys(p)) + hits_of(
                        v.req,
                        oracle,
                        listed_keys(pages.drop_first()),
                    ));
                    assert((v.acc.keys + hits_of(v.req, oracle, page_keys(p))) + hits_of(
                        v.req,
                        oracle,
                        listed_keys(pages.drop_first()),
                    ) =~= v.acc.keys + (hits_of(v.req, oracle, page_keys(p)) + hits_of(
                        v.req,
                        oracle,
                        listed_keys(pages.drop_first()),
                    )));
                }
            }
        }
    }
}

/// Law: over a deterministic listing and content source, a search without
/// volume limits that does not abort returns exactly the listed keys that
/// pass both filter stages, in listing order: the key stage by name, and —
/// only when a content pattern is configured — the content stage on the text
/// the source yields, a failed fetch making the key a non-hit.
pub proof fn lemma_scan_result_is_two_stage_filter(
    req: ReqView,
    oracle: Oracle,
    pages: Seq<PageView>,
)
    requires
        req.max_keys is None,
        req.max_hits is None,
    ensures
        ({
            let r = spec_scan(req, oracle, pages);
            !(r.1 is Failed) ==> r.0.acc.keys == hits_of(req, oracle, listed_keys(pages))
        }),
{
    let v0 = init_view(req);
    assert(v0.status is Running);
    lemma_scan_pages_two_stage(v0, oracle, pages);
    let r = scan_pages(v0, oracle, pages);
    if !(r.1 is Failed) {
        assert(Seq::<Seq<char>>::empty() + hits_of(req, oracle, listed_keys(pages)) =~= hits_of(
            req,
            oracle,
            listed_keys(pages),
        ));
    }
}

} // verus!
