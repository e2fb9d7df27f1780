//! Search requests and the error taxonomy.
//!
//! A [`SearchRequest`] is built once from validated configuration and is
//! immutable afterwards; the optional pattern strings are compiled here, so
//! an invalid pattern fails the whole request before any page is fetched.

use vstd::prelude::*;

use crate::pattern::Pattern;
use crate::pattern::regex_valid;

verus! {

/// Everything that can end a search (or keep one from starting).
#[derive(Debug, Clone, PartialEq, Eq)]
pub enum SearchError {
    /// The key pattern does not compile; carries the offending string.
    InvalidKeyPattern { pattern: String },
    /// The content pattern does not compile; carries the offending string.
    InvalidContentPattern { pattern: String },
    /// The up-front access probe could not list the bucket.
    BucketUnreachable { bucket: String },
    /// A listing page arrived without readable contents and
    /// `tolerate_response_error` is off.
    UnreadableListing,
    /// A listed object carries no retrievable key string and
    /// `tolerate_key_error` is off.
    MissingKey,
    /// The contents of `key` could not be fetched or decoded as text and
    /// `tolerate_key_error` is off.
    ContentUnavailable { key: String },
}

/// The mathematical shape of a [`SearchError`].
pub ghost enum ErrView {
    InvalidKeyPattern { pattern: Seq<char> },
    InvalidContentPattern { pattern: Seq<char> },
    BucketUnreachable { bucket: Seq<char> },
    UnreadableListing,
    MissingKey,
    ContentUnavailable { key: Seq<char> },
}

impl View for SearchError {
    type V = ErrView;

    open(crate) spec fn view(&self) -> ErrView {
        match self {
            SearchError::InvalidKeyPattern { pattern } => (ErrView::InvalidKeyPattern {
                pattern: pattern@,
            }),
            SearchError::InvalidContentPattern { pattern } => (ErrView::InvalidContentPattern {
                pattern: pattern@,
            }),
            SearchError::BucketUnreachable { bucket } => (ErrView::BucketUnreachable {
                bucket: bucket@,
            }),
            SearchError::UnreadableListing => ErrView::UnreadableListing,
            SearchError::MissingKey => ErrView::MissingKey,
            SearchError::ContentUnavailable { key } => (ErrView::ContentUnavailable { key: key@ }),
        }
    }
}

/// The mathematical shape of a [`SearchRequest`]: each compiled pattern is
/// represented by the pattern string it was compiled from.
#[verifier::ext_equal]
pub ghost struct ReqView {
    pub bucket: Seq<char>,
    pub prefix: Option<Seq<char>>,
    pub key_pattern: Option<Seq<char>>,
    pub content_pattern: Option<Seq<char>>,
    pub max_keys: Option<nat>,
    pub max_hits: Option<nat>,
    pub log_interval: nat,
    pub log_hits: bool,
    pub tolerate_response_error: bool,
    pub tolerate_key_error: bool,
}

/// One search, fully configured: where to look, the two filter stages, the
/// volume limits, the progress-log cadence, and the failure-tolerance flags.
pub struct SearchRequest {
    pub(crate) bucket: String,
    pub(crate) prefix: Option<String>,
    pub(crate) key_pattern: Option<Pattern>,
    pub(crate) content_pattern: Option<Pattern>,
    pub(crate) max_keys: Option<usize>,
    pub(crate) max_hits: Option<usize>,
    pub(crate) log_interval: usize,
    pub(crate) log_hits: bool,
    pub(crate) tolerate_response_error: bool,
    pub(crate) tolerate_key_error: bool,
}

impl View for SearchRequest {
    type V = ReqView;

    open(crate) spec fn view(&self) -> ReqView {
        ReqView {
            bucket: self.bucket@,
            prefix: match self.prefix {
                Some(p) => Some(p@),
                None => None,
            },
            key_pattern: match self.key_pattern {
                Some(p) => Some(p.src()),
                None => None,
            },
            content_pattern: match self.content_pattern {
                Some(p) => Some(p.src()),
                None => None,
            },
            max_keys: match self.max_keys {
                Some(m) => Some(m as nat),
                None => None,
            },
            max_hits: match self.max_hits {
                Some(m) => Some(m as nat),
                None => None,
            },
            log_interval: self.log_interval as nat,
            log_hits: self.log_hits,
            tolerate_response_error: self.tolerate_response_error,
            tolerate_key_error: self.tolerate_key_error,
        }
    }
}

/// The view of an optional borrowed pattern string.
pub open spec fn opt_str_view(s: Option<&str>) -> Option<Seq<char>> {
    match s {
        Some(p) => Some(p@),
        None => None,
    }
}

/// The view of an optional owned string.
pub open spec fn opt_string_view(s: Option<String>) -> Option<Seq<char>> {
    match s {
        Some(p) => Some(p@),
        None => None,
    }
}

/// The view of an optional count.
pub open spec fn opt_nat_view(n: Option<usize>) -> Option<nat> {
    match n {
        Some(m) => Some(m as nat),
        None => None,
    }
}

impl SearchRequest {
    /// A request is well formed when its progress-log cadence is positive.
    pub open(crate) spec fn wf(&self) -> bool {
        self.log_interval >= 1
    }

    /// Builds a request from validated configuration, compiling the optional
    /// pattern strings.  Fails exactly when a supplied pattern does not
    /// compile, naming the offending string and the role it was meant for;
    /// the key pattern is checked first.
    pub fn new(
        bucket: String,
        prefix: Option<String>,
        key_regex: Option<&str>,
        content_regex: Option<&str>,
        max_keys: Option<usize>,
        max_hits: Option<usize>,
        log_interval: usize,
        log_hits: bool,
        tolerate_response_error: bool,
        tolerate_key_error: bool,
    ) -> (r: Result<SearchRequest, SearchError>)
        requires
            log_interval >= 1,
        ensures
            r is Ok <==> ((key_regex matches Some(k) ==> regex_valid(k@)) && (
            content_regex matches Some(c) ==> regex_valid(c@))),
            r matches Ok(req) ==> req.wf() && req@ == (ReqView {
                bucket: bucket@,
                prefix: opt_string_view(prefix),
                key_pattern: opt_str_view(key_regex),
                content_pattern: opt_str_view(content_regex),
                max_keys: opt_nat_view(max_keys),
                max_hits: opt_nat_view(max_hits),
                log_interval: log_interval as nat,
                log_hits: log_hits,
                tolerate_response_error: tolerate_response_error,
                tolerate_key_error: tolerate_key_error,
            }),
            key_regex matches Some(k) ==> regex_valid(k@) || (r matches Err(e) && e@ == (
            ErrView::InvalidKeyPattern { pattern: k@ })),
            (key_regex matches Some(k) ==> regex_valid(k@)) ==> (content_regex matches Some(c)
                ==> regex_valid(c@) || (r matches Err(e) && e@ == (ErrView::InvalidContentPattern {
                pattern: c@,
            }))),
    {
        let key_pattern = match key_regex {
            Some(k) => match Pattern::compile(k) {
                Some(p) => Some(p),
                None => {
                    return Err(SearchError::InvalidKeyPattern { pattern: k.to_owned() });
                },
            },
            None => None,
        };
        let content_pattern = match content_regex {
            Some(c) => match Pattern::compile(c) {
                Some(p) => Some(p),
                None => {
                    return Err(SearchError::InvalidContentPattern { pattern: c.to_owned() });
                },
            },
            None => None,
        };
        Ok(
            SearchRequest {
                bucket,
                prefix,
                key_pattern,
                content_pattern,
                max_keys,
                max_hits,
                log_interval,
                log_hits,
                tolerate_response_error,
                tolerate_key_error,
            },
        )
    }
}

} // verus!
