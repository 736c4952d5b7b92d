//! Redirect interception: an ephemeral browser surface loads an
//! authorization URL, and every navigation attempt is inspected. The first
//! navigation matching the expected redirect prefix consumes the single
//! completion slot — duplicate deliveries of the same event are no-ops —
//! and either captures the decoded parameters or records a failure when
//! required parameters are missing. Closing the surface without a matching
//! navigation is the cancellation path.

use vstd::prelude::*;
use vstd::string::StringSliceAdditionalSpecFns;
use crate::bytes::{is_prefix_nocase, starts_with_nocase};
use crate::query::{
    params_of, lookup_param, query_of, fragment_of, pairs_view, parse_params, find_param,
    url_query, url_fragment,
};
use crate::error::Error;

verus! {

/// What a completed interception recorded: the decoded parameters of the
/// matching redirect, or the raw URL of a matching redirect that lacked
/// required parameters.
pub enum CaptureModel {
    Captured(Seq<(Seq<u8>, Seq<u8>)>),
    Rejected(Seq<u8>),
}

/// The abstract state of one interception.
pub struct InterceptModel {
    pub prefix: Seq<u8>,
    pub from_fragment: bool,
    pub require_code_state: bool,
    pub outcome: Option<CaptureModel>,
}

/// Whether a navigation target matches the expected redirect prefix,
/// ASCII-case-insensitively.
pub open spec fn nav_matches(m: InterceptModel, url: Seq<u8>) -> bool {
    is_prefix_nocase(m.prefix, url)
}

/// The parameters a matching navigation delivers: the decoded pairs of the
/// URL fragment or query, as configured.
pub open spec fn extracted_params(m: InterceptModel, url: Seq<u8>) -> Seq<(Seq<u8>, Seq<u8>)> {
    if m.from_fragment {
        params_of(fragment_of(url))
    } else {
        params_of(query_of(url))
    }
}

/// What the completion slot records for a matching navigation.
pub open spec fn capture_of(m: InterceptModel, url: Seq<u8>) -> CaptureModel {
    let ps = extracted_params(m, url);
    if m.require_code_state && (lookup_param(ps, "code".spec_bytes()) is None || lookup_param(
        ps,
        "state".spec_bytes(),
    ) is None) {
        CaptureModel::Rejected(url)
    } else {
        CaptureModel::Captured(ps)
    }
}

/// One navigation event: the new state, and whether the surface lets the
/// navigation proceed. A non-matching navigation proceeds unchanged; a
/// matching one with the slot already consumed is ignored and proceeds; a
/// matching one with the slot free consumes it and stops the navigation.
pub open spec fn nav_step(m: InterceptModel, url: Seq<u8>) -> (InterceptModel, bool) {
    if !nav_matches(m, url) {
        (m, true)
    } else if m.outcome is Some {
        (m, true)
    } else {
        (
            InterceptModel {
                outcome: Some(capture_of(m, url)),
                ..m
            },
            false,
        )
    }
}

/// If the same matching navigation event is delivered twice, the first
/// delivery records the only completion; the second changes nothing and
/// lets the navigation proceed.
pub proof fn lemma_duplicate_delivery_is_noop(m: InterceptModel, url: Seq<u8>)
    requires
        !nav_step(m, url).1,
    ensures
        nav_step(nav_step(m, url).0, url).0 == nav_step(m, url).0,
        nav_step(nav_step(m, url).0, url).1,
{
}

/// Once the slot is consumed, no later navigation event, matching or not,
/// changes the recorded outcome.
pub proof fn lemma_at_most_once(m: InterceptModel, url: Seq<u8>)
    requires
        m.outcome is Some,
    ensures
        nav_step(m, url).0 == m,
        nav_step(m, url).1,
{
}

/// The state after a whole sequence of navigation events.
pub open spec fn run_steps(m: InterceptModel, urls: Seq<Seq<u8>>) -> InterceptModel
    decreases urls.len(),
{
    if urls.len() == 0 {
        m
    } else {
        run_steps(nav_step(m, urls[0]).0, urls.drop_first())
    }
}

/// How many events of a sequence complete the interception (are stopped
/// rather than allowed to proceed).
pub open spec fn completions_in(m: InterceptModel, urls: Seq<Seq<u8>>) -> int
    decreases urls.len(),
{
    if urls.len() == 0 {
        0
    } else {
        (if nav_step(m, urls[0]).1 {
            0int
        } else {
            1int
        }) + completions_in(nav_step(m, urls[0]).0, urls.drop_first())
    }
}

/// Once the slot is consumed, no sequence of further events completes
/// again or moves the state.
pub proof fn lemma_consumed_slot_stays(m: InterceptModel, urls: Seq<Seq<u8>>)
    requires
        m.outcome is Some,
    ensures
        completions_in(m, urls) == 0,
        run_steps(m, urls) == m,
    decreases urls.len(),
{
    if urls.len() != 0 {
        lemma_consumed_slot_stays(m, urls.drop_first());
    }
}

/// Over any sequence of navigation events, at most one completes the
/// interception, and an outcome is recorded exactly when one did.
pub proof fn lemma_at_most_one_completion(m: InterceptModel, urls: Seq<Seq<u8>>)
    requires
        m.outcome is None,
    ensures
        0 <= completions_in(m, urls) <= 1,
        run_steps(m, urls).outcome is Some <==> completions_in(m, urls) == 1,
    decreases urls.len(),
{
    if urls.len() != 0 {
        let (m1, proceed) = nav_step(m, urls[0]);
        if proceed {
            lemma_at_most_one_completion(m1, urls.drop_first());
        } else {
            lemma_consumed_slot_stays(m1, urls.drop_first());
        }
    }
}

/// A redirect matching the expected prefix but missing `code` or `state`
/// settles the interception at once — no waiting remains — with a failure
/// that carries the offending URL.
pub proof fn lemma_missing_required_is_rejected(m: InterceptModel, url: Seq<u8>)
    requires
        m.outcome is None,
        m.require_code_state,
        nav_matches(m, url),
        lookup_param(extracted_params(m, url), "code".spec_bytes()) is None || lookup_param(
            extracted_params(m, url),
            "state".spec_bytes(),
        ) is None,
    ensures
        nav_step(m, url).0.outcome == Some(CaptureModel::Rejected(url)),
        !nav_step(m, url).1,
{
}

/// One interception of a redirect on an ephemeral browser surface.
///
/// The surrounding process delivers every navigation attempt to
/// `on_navigation` (serialized under its lock) and calls `finish` when the
/// flow completes or the surface is closed.
pub struct Interceptor {
    prefix: Vec<u8>,
    from_fragment: bool,
    require_code_state: bool,
    outcome: Option<Capture>,
}

/// Owned form of a recorded completion.
pub enum Capture {
    Captured(Vec<(Vec<u8>, Vec<u8>)>),
    Rejected(Vec<u8>),
}

impl View for Capture {
    type V = CaptureModel;

    closed spec fn view(&self) -> CaptureModel {
        match self {
            Capture::Captured(ps) => CaptureModel::Captured(pairs_view(ps@)),
            Capture::Rejected(u) => CaptureModel::Rejected(u@),
        }
    }
}

impl View for Interceptor {
    type V = InterceptModel;

    closed spec fn view(&self) -> InterceptModel {
        InterceptModel {
            prefix: self.prefix@,
            from_fragment: self.from_fragment,
            require_code_state: self.require_code_state,
            outcome: match self.outcome {
                Some(c) => Some(c@),
                None => None,
            },
        }
    }
}

impl Interceptor {
    /// A fresh interception: nothing captured yet.
    pub fn new(prefix: Vec<u8>, from_fragment: bool, require_code_state: bool) -> (r: Self)
        ensures
            r@ == (InterceptModel {
                prefix: prefix@,
                from_fragment,
                require_code_state,
                outcome: None,
            }),
    {
        Interceptor { prefix, from_fragment, require_code_state, outcome: None }
    }

    /// Handles one navigation attempt and says whether the surface lets it
    /// proceed; behaves exactly as `nav_step` describes.
    pub fn on_navigation(&mut self, url: &[u8]) -> (proceed: bool)
        ensures
            (final(self)@, proceed) == nav_step(old(self)@, url@),
    {
        if !starts_with_nocase(url, self.prefix.as_slice()) {
            return true;
        }
        if self.outcome.is_some() {
            return true;
        }
        let part = if self.from_fragment {
            url_fragment(url)
        } else {
            url_query(url)
        };
        let ps = parse_params(part.as_slice());
        if self.require_code_state {
            let has_code = find_param(&ps, "code".as_bytes()).is_some();
            let has_state = find_param(&ps, "state".as_bytes()).is_some();
            if !has_code || !has_state {
                let raw: Vec<u8> = vstd::slice::slice_to_vec(url);
                self.outcome = Some(Capture::Rejected(raw));
                return false;
            }
        }
        self.outcome = Some(Capture::Captured(ps));
        false
    }

    /// The recorded outcome, once the caller stops waiting: captured
    /// parameters on success, the offending URL when a matching redirect
    /// lacked required parameters, and a cancellation failure when the
    /// surface was closed with nothing captured.
    pub fn finish(self) -> (r: Result<Vec<(Vec<u8>, Vec<u8>)>, Error>)
        ensures
            match self@.outcome {
                None => r matches Err(e) && e is Cancelled,
                Some(CaptureModel::Rejected(u)) => r matches Err(e) && e matches
                    Error::InvalidRedirectUrl(raw) && raw@ == u,
                Some(CaptureModel::Captured(ps)) => r matches Ok(got) && pairs_view(got@) == ps,
            },
    {
        match self.outcome {
            None => Err(Error::Cancelled),
            Some(Capture::Rejected(u)) => Err(Error::InvalidRedirectUrl(u)),
            Some(Capture::Captured(ps)) => Ok(ps),
        }
    }
}

} // verus!
