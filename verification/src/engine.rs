//! The key search engine.
//!
//! An [`Engine`] owns one search's state (the `ScanState` counters and the
//! hits found so far) and judges keys one event at a time: the caller fetches
//! listing pages and object contents and reports each outcome.  Every step is
//! proved to take exactly the step the model prescribes ([`spec_on_page`],
//! [`spec_on_key`], [`spec_on_content`]), so the two-stage filter, the lazy
//! content fetch, the volume limits, and the tolerance policy hold for any
//! sequence of outcomes the caller feeds in.

use vstd::prelude::*;

use crate::model::Acc;
use crate::model::EngineView;
use crate::model::StatusView;
use crate::model::StepView;
use crate::model::init_view;
use crate::model::keys_view;
use crate::model::limits_reached;
use crate::model::spec_finish_key;
use crate::model::spec_on_content;
use crate::model::spec_on_key;
use crate::model::spec_on_page;
use crate::request::SearchError;
use crate::request::SearchRequest;
use crate::request::opt_string_view;

verus! {

/// Whether the scan is still going, stopped at a volume limit, or aborted.
#[derive(Debug, Clone, PartialEq, Eq)]
pub enum EngineStatus {
    Running,
    Stopped,
    Failed(SearchError),
}

impl View for EngineStatus {
    type V = StatusView;

    open spec fn view(&self) -> StatusView {
        match self {
            EngineStatus::Running => StatusView::Running,
            EngineStatus::Stopped => StatusView::Stopped,
            EngineStatus::Failed(e) => StatusView::Failed { err: e@ },
        }
    }
}

/// What the caller should do after a key was fully judged.
#[derive(Debug, Clone, Copy, PartialEq, Eq)]
pub struct ScanNote {
    /// The key passed both filter stages and was appended to the result.
    pub hit: bool,
    /// Emit one line for this hit (`log_hits` is set).
    pub log_hit: bool,
    /// The scanned count reached a multiple of the progress-log cadence.
    pub log_progress: bool,
    /// A volume limit is now reached: stop feeding keys and pages.
    pub limit_reached: bool,
}

/// The engine's answer to one event.
#[derive(Debug, Clone, PartialEq, Eq)]
pub enum StepResult {
    /// A descriptor without a key string was tolerated and skipped.
    Skipped,
    /// A key was fully judged.
    Scanned(ScanNote),
    /// The key passed the key stage: fetch its contents and report them
    /// through [`Engine::on_content`] before feeding anything else.
    NeedContent,
    /// The search aborted with this error.
    Failed(SearchError),
}

impl View for StepResult {
    type V = StepView;

    open spec fn view(&self) -> StepView {
        match self {
            StepResult::Skipped => StepView::Skipped,
            StepResult::Scanned(note) => (StepView::Scanned {
                hit: note.hit,
                log_hit: note.log_hit,
                log_progress: note.log_progress,
                limit_reached: note.limit_reached,
            }),
            StepResult::NeedContent => StepView::NeedContent,
            StepResult::Failed(e) => (StepView::Failed { err: e@ }),
        }
    }
}

/// What a finished search hands back: the hits in listing order and the
/// final counters.
#[derive(Debug)]
pub struct SearchReport {
    /// The matching keys, in the order first observed across pages.
    pub keys: Vec<String>,
    /// Keys scanned.
    pub n_scanned: usize,
    /// Keys that passed both filter stages.
    pub n_hits: usize,
    /// Content fetches issued.
    pub n_content_fetches: usize,
    /// Listing pages consumed.
    pub n_pages: usize,
}

/// The counters a report carries, as the model counts them.
pub open spec fn report_view(rep: &SearchReport) -> Acc {
    Acc {
        keys: keys_view(rep.keys@),
        n_scanned: rep.n_scanned as nat,
        n_hits: rep.n_hits as nat,
        n_content_fetches: rep.n_content_fetches as nat,
        n_pages: rep.n_pages as nat,
    }
}

/// One search in progress.
pub struct Engine {
    req: SearchRequest,
    keys: Vec<String>,
    n_scanned: usize,
    n_hits: usize,
    n_content_fetches: usize,
    n_pages: usize,
    pending: Option<String>,
    status: EngineStatus,
}

impl View for Engine {
    type V = EngineView;

    closed spec fn view(&self) -> EngineView {
        EngineView {
            req: self.req@,
            acc: Acc {
                keys: keys_view(self.keys@),
                n_scanned: self.n_scanned as nat,
                n_hits: self.n_hits as nat,
                n_content_fetches: self.n_content_fetches as nat,
                n_pages: self.n_pages as nat,
            },
            pending: opt_string_view(self.pending),
            status: self.status@,
        }
    }
}

impl Engine {
    /// What every step preserves: a positive log cadence, hits within the
    /// scanned count, one recorded key per hit, and a pending key only while
    /// a content pattern is configured.
    pub closed spec fn inv(&self) -> bool {
        &&& self.req.wf()
        &&& self@.acc.n_hits <= self@.acc.n_scanned
        &&& self@.acc.keys.len() == self@.acc.n_hits
        &&& (self@.pending is Some ==> self@.req.content_pattern is Some)
    }

    /// Whether a volume limit is reached at the given counters.
    fn limits_hit_at(req: &SearchRequest, n_scanned: usize, n_hits: usize) -> (r: bool)
        ensures
            r == limits_reached(req@, n_scanned as nat, n_hits as nat),
    {
        let keys_limit = match req.max_keys {
            Some(m) => n_scanned >= m,
            None => false,
        };
        let hits_limit = match req.max_hits {
            Some(m) => n_hits >= m,
            None => false,
        };
        keys_limit || hits_limit
    }

    /// Starts a search: zero counters, no pending key, and — when a limit of
    /// zero forecloses any scanning — already stopped.
    pub fn new(req: SearchRequest) -> (e: Engine)
        requires
            req.wf(),
        ensures
            e@ == init_view(req@),
            e.inv(),
    {
        let stopped = Self::limits_hit_at(&req, 0, 0);
        let e = Engine {
            req,
            keys: Vec::new(),
            n_scanned: 0,
            n_hits: 0,
            n_content_fetches: 0,
            n_pages: 0,
            pending: None,
            status: if stopped {
                EngineStatus::Stopped
            } else {
                EngineStatus::Running
            },
        };
        proof {
            assert(e@ =~= init_view(e.req@));
        }
        e
    }

    /// Whether the scan still accepts events.
    pub fn is_running(&self) -> (r: bool)
        ensures
            r == (self@.status is Running),
    {
        match self.status {
            EngineStatus::Running => true,
            _ => false,
        }
    }

    /// A listing page arrived: count it; when its contents are unreadable
    /// and that is not tolerated, abort the search.  Returns whether the
    /// scan goes on.
    pub fn on_page(&mut self, readable: bool) -> (ok: bool)
        requires
            old(self).inv(),
            old(self)@.status is Running,
            old(self)@.acc.n_pages < usize::MAX,
        ensures
            final(self).inv(),
            final(self)@ == spec_on_page(old(self)@, readable),
            ok == (final(self)@.status is Running),
    {
        self.n_pages = self.n_pages + 1;
        if readable || self.req.tolerate_response_error {
            proof {
                assert(self@ =~= spec_on_page(old(self)@, readable));
            }
            true
        } else {
            self.status = EngineStatus::Failed(SearchError::UnreadableListing);
            proof {
                assert(self@ =~= spec_on_page(old(self)@, readable));
            }
            false
        }
    }

    /// A key was fully judged: record the hit, count the key as scanned, and
    /// stop if a limit is now reached.
    fn finish_key(&mut self, key: String, hit: bool) -> (r: StepResult)
        requires
            old(self).inv(),
            old(self)@.status is Running,
            old(self)@.acc.n_scanned < usize::MAX,
        ensures
            final(self).inv(),
            final(self)@ == spec_finish_key(old(self)@, key@, hit).0,
            r@ == spec_finish_key(old(self)@, key@, hit).1,
    {
        let ghost key_v = key@;
        if hit {
            self.keys.push(key);
            self.n_hits = self.n_hits + 1;
            proof {
                assert(keys_view(self.keys@) =~= keys_view(old(self).keys@).push(key_v));
            }
        }
        self.n_scanned = self.n_scanned + 1;
        self.pending = None;
        let limit = Self::limits_hit_at(&self.req, self.n_scanned, self.n_hits);
        if limit {
            self.status = EngineStatus::Stopped;
        }
        let log_progress = self.n_scanned % self.req.log_interval == 0;
        let note = ScanNote {
            hit,
            log_hit: hit && self.req.log_hits,
            log_progress,
            limit_reached: limit,
        };
        proof {
            assert(self@ =~= spec_finish_key(old(self)@, key_v, hit).0);
        }
        StepResult::Scanned(note)
    }

    /// One key descriptor from a page, in listing order.  A descriptor
    /// without a key string is skipped or aborts the search, per
    /// `tolerate_key_error`.  A key that fails the key stage is judged on
    /// the spot; one that passes while a content pattern is configured is
    /// answered with [`StepResult::NeedContent`], and the caller must fetch
    /// its contents next — content is never fetched for a key the key stage
    /// rejected.
    pub fn on_key(&mut self, desc: Option<String>) -> (r: StepResult)
        requires
            old(self).inv(),
            old(self)@.status is Running,
            old(self)@.pending is None,
            old(self)@.acc.n_scanned < usize::MAX,
            old(self)@.acc.n_content_fetches < usize::MAX,
        ensures
            final(self).inv(),
            final(self)@ == spec_on_key(old(self)@, opt_string_view(desc)).0,
            r@ == spec_on_key(old(self)@, opt_string_view(desc)).1,
    {
        match desc {
            None => {
                if self.req.tolerate_key_error {
                    StepResult::Skipped
                } else {
                    self.status = EngineStatus::Failed(SearchError::MissingKey);
                    proof {
                        assert(self@ =~= spec_on_key(old(self)@, opt_string_view(desc)).0);
                    }
                    StepResult::Failed(SearchError::MissingKey)
                }
            },
            Some(key) => {
                let key_ok = match &self.req.key_pattern {
                    Some(p) => p.is_match(key.as_str()),
                    None => true,
                };
                if !key_ok {
                    self.finish_key(key, false)
                } else {
                    let wants_content = match &self.req.content_pattern {
                        Some(_) => true,
                        None => false,
                    };
                    if wants_content {
                        self.n_content_fetches = self.n_content_fetches + 1;
                        self.pending = Some(key);
                        proof {
                            assert(self@ =~= spec_on_key(old(self)@, opt_string_view(desc)).0);
                        }
                        StepResult::NeedContent
                    } else {
                        self.finish_key(key, true)
                    }
                }
            },
        }
    }

    /// The outcome of fetching the pending key's contents: `Some` carries
    /// the decoded text, `None` reports a failed fetch or a body that is not
    /// text.  The key is a hit exactly when the text matches the content
    /// pattern; a failed fetch makes this single key a non-hit or aborts the
    /// search, per `tolerate_key_error`.
    pub fn on_content(&mut self, content: Option<String>) -> (r: StepResult)
        requires
            old(self).inv(),
            old(self)@.status is Running,
            old(self)@.pending is Some,
            old(self)@.acc.n_scanned < usize::MAX,
        ensures
            final(self).inv(),
            final(self)@ == spec_on_content(old(self)@, opt_string_view(content)).0,
            r@ == spec_on_content(old(self)@, opt_string_view(content)).1,
    {
        let taken = self.pending.take();
        match taken {
            Some(key) => match content {
                Some(text) => {
                    let matched = match &self.req.content_pattern {
                        Some(p) => p.is_match(text.as_str()),
                        None => true,
                    };
                    let r = self.finish_key(key, matched);
                    proof {
                        assert(self@ =~= spec_on_content(old(self)@, opt_string_view(
                            content,
                        )).0);
                    }
                    r
                },
                None => {
                    if self.req.tolerate_key_error {
                        let r = self.finish_key(key, false);
                        proof {
                            assert(self@ =~= spec_on_content(old(self)@, opt_string_view(
                                content,
                            )).0);
                        }
                        r
                    } else {
                        self.status = EngineStatus::Failed(
                            SearchError::ContentUnavailable { key: key.clone() },
                        );
                        proof {
                            assert(self@ =~= spec_on_content(old(self)@, opt_string_view(
                                content,
                            )).0);
                        }
                        StepResult::Failed(SearchError::ContentUnavailable { key })
                    }
                },
            },
            None => {
                // Unreachable: the precondition says a key is pending.
                StepResult::Skipped
            },
        }
    }

    /// Keys scanned so far.
    pub fn n_scanned(&self) -> (n: usize)
        ensures
            n == self@.acc.n_scanned,
    {
        self.n_scanned
    }

    /// Hits found so far.
    pub fn n_hits(&self) -> (n: usize)
        ensures
            n == self@.acc.n_hits,
    {
        self.n_hits
    }

    /// Content fetches issued so far.
    pub fn n_content_fetches(&self) -> (n: usize)
        ensures
            n == self@.acc.n_content_fetches,
    {
        self.n_content_fetches
    }

    /// Listing pages consumed so far.
    pub fn n_pages(&self) -> (n: usize)
        ensures
            n == self@.acc.n_pages,
    {
        self.n_pages
    }

    /// Ends the search: the error it aborted with, or the report with the
    /// hits in listing order and the final counters.
    pub fn into_result(self) -> (r: Result<SearchReport, SearchError>)
        ensures
            self@.status matches StatusView::Failed { err } ==> r matches Err(e) && e@ == err,
            !(self@.status is Failed) ==> (r matches Ok(rep) && report_view(&rep) == self@.acc),
    {
        match self.status {
            EngineStatus::Failed(e) => Err(e),
            _ => Ok(
                SearchReport {
                    keys: self.keys,
                    n_scanned: self.n_scanned,
                    n_hits: self.n_hits,
                    n_content_fetches: self.n_content_fetches,
                    n_pages: self.n_pages,
                },
            ),
        }
    }
}

} // verus!
