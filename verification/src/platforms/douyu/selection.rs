//! Choosing the CDN and quality of a Douyu FLV stream.
//!
//! The choice alternates between requests to the play API and decisions on
//! their answers. `CdnSelection` holds the decisions: it is started, asks for
//! a request (`SelectionAction::Request`), is given what the request brought
//! (`SelectionEvent`), and in the end gives the stream or the error
//! (`SelectionAction::Finish`). The caller performs the requests and keeps
//! the time budget: when the budget runs out it reports `TimedOut`.
//!
//! Douyu's automatic CDN (`""`) is asked first at the default rate. Its
//! answer advertises other CDNs, which are tried in turn, and may advertise
//! a preferred rate, which is then asked for on the automatic CDN; the
//! source-rate URL is kept as a fallback. CDNs named `scdn...` are skipped,
//! and the excluded CDN (one that just failed) is never chosen.
use vstd::prelude::*;

use crate::outside::{opt_view, strings_view};
use crate::platforms::douyu::api::{is_flv_url, valid_flv_url, DouyuApiError};
use crate::text::{append_str, chars_of, decimal, push_decimal, starts_with, starts_with_str, string_of};
use std::collections::VecDeque;
use vstd::string::StringExecFns;

verus! {

/// What the play API answered for one CDN and rate.
#[derive(Debug, Clone)]
pub struct StreamCandidate {
    pub url: Option<String>,
    pub cdns: Vec<String>,
    pub preferred_rate: Option<u64>,
}

/// The chosen stream: its FLV URL and the CDN that serves it.
#[derive(Debug, Clone)]
pub struct SelectedStream {
    pub url: String,
    pub cdn: String,
}

/// What a request brought.
#[derive(Debug)]
pub enum SelectionEvent {
    Candidate(StreamCandidate),
    Failed(DouyuApiError),
    TimedOut,
}

/// What the selection asks for next.
#[derive(Debug)]
pub enum SelectionAction {
    /// Ask the play API for `cdn` at `rate`.
    Request { cdn: String, rate: u64 },
    /// The selection is over.
    Finish(Result<SelectedStream, DouyuApiError>),
}

/// Where a selection stands.
#[derive(Debug, Clone, Copy, PartialEq, Eq, Structural)]
pub enum Phase {
    Idle,
    AwaitCandidate,
    AwaitPreferred,
}

/// The state of a selection.
#[derive(Debug, Clone)]
pub struct CdnSelection {
    pending: VecDeque<String>,
    tried: Vec<String>,
    last_error: Option<DouyuApiError>,
    selected_rate: u64,
    source_fallback: Option<SelectedStream>,
    excluded_cdn: Option<String>,
    phase: Phase,
    current: String,
    held: Option<StreamCandidate>,
}

// ---------------------------------------------------------------------------
// The model
// ---------------------------------------------------------------------------

/// An API failure as plain values.
pub enum ErrorView {
    Offline(Seq<char>),
    Authentication(Seq<char>),
    Api(Seq<char>, i32, Seq<char>),
    InvalidResponse(Seq<char>, Seq<char>),
}

pub open spec fn error_view(e: DouyuApiError) -> ErrorView {
    match e {
        DouyuApiError::Offline { detail } => ErrorView::Offline(detail@),
        DouyuApiError::Authentication { detail } => ErrorView::Authentication(detail@),
        DouyuApiError::Api { endpoint, code, message } => ErrorView::Api(endpoint@, code, message@),
        DouyuApiError::InvalidResponse { endpoint, detail } => ErrorView::InvalidResponse(
            endpoint@,
            detail@,
        ),
    }
}

pub open spec fn opt_error_view(e: Option<DouyuApiError>) -> Option<ErrorView> {
    match e {
        Some(e) => Some(error_view(e)),
        None => None,
    }
}

/// A play answer as plain values.
pub struct CandidateView {
    pub url: Option<Seq<char>>,
    pub cdns: Seq<Seq<char>>,
    pub preferred_rate: Option<u64>,
}

pub open spec fn candidate_view(c: StreamCandidate) -> CandidateView {
    CandidateView { url: opt_view(c.url), cdns: strings_view(c.cdns@), preferred_rate: c.preferred_rate }
}

pub open spec fn opt_candidate_view(c: Option<StreamCandidate>) -> Option<CandidateView> {
    match c {
        Some(c) => Some(candidate_view(c)),
        None => None,
    }
}

pub open spec fn stream_view(s: SelectedStream) -> (Seq<char>, Seq<char>) {
    (s.url@, s.cdn@)
}

pub open spec fn opt_stream_view(s: Option<SelectedStream>) -> Option<(Seq<char>, Seq<char>)> {
    match s {
        Some(s) => Some(stream_view(s)),
        None => None,
    }
}

/// An event as plain values.
pub enum EventView {
    Candidate(CandidateView),
    Failed(ErrorView),
    TimedOut,
}

pub open spec fn event_view(e: SelectionEvent) -> EventView {
    match e {
        SelectionEvent::Candidate(c) => EventView::Candidate(candidate_view(c)),
        SelectionEvent::Failed(err) => EventView::Failed(error_view(err)),
        SelectionEvent::TimedOut => EventView::TimedOut,
    }
}

/// An action as plain values.
pub enum ActionView {
    Request(Seq<char>, u64),
    Finish(Result<(Seq<char>, Seq<char>), ErrorView>),
}

pub open spec fn action_view(a: SelectionAction) -> ActionView {
    match a {
        SelectionAction::Request { cdn, rate } => ActionView::Request(cdn@, rate),
        SelectionAction::Finish(Ok(s)) => ActionView::Finish(Ok(stream_view(s))),
        SelectionAction::Finish(Err(e)) => ActionView::Finish(Err(error_view(e))),
    }
}

/// A selection's state as plain values.
pub struct SelectionView {
    pub pending: Seq<Seq<char>>,
    pub tried: Seq<Seq<char>>,
    pub last_error: Option<ErrorView>,
    pub selected_rate: u64,
    pub fallback: Option<(Seq<char>, Seq<char>)>,
    pub excluded: Option<Seq<char>>,
    pub phase: Phase,
    pub current: Seq<char>,
    pub held: Option<CandidateView>,
}

impl CdnSelection {
    pub closed spec fn view(self) -> SelectionView {
        SelectionView {
            pending: strings_view(self.pending@),
            tried: strings_view(self.tried@),
            last_error: opt_error_view(self.last_error),
            selected_rate: self.selected_rate,
            fallback: opt_stream_view(self.source_fallback),
            excluded: opt_view(self.excluded_cdn),
            phase: self.phase,
            current: self.current@,
            held: opt_candidate_view(self.held),
        }
    }

    /// Where the selection stands.
    pub fn phase(&self) -> (r: Phase)
        ensures
            r == self.view().phase,
    {
        self.phase
    }
}

/// The error when the time budget ran out.
pub open spec fn timeout_error() -> ErrorView {
    ErrorView::InvalidResponse("getH5PlayV1"@, "timed out selecting a playable FLV CDN"@)
}

/// The queue with the advertised CDNs added that are non-empty and not
/// tried yet, in order.
pub open spec fn with_alternates(
    pending: Seq<Seq<char>>,
    tried: Seq<Seq<char>>,
    cdns: Seq<Seq<char>>,
) -> Seq<Seq<char>>
    decreases cdns.len(),
{
    if cdns.len() == 0 {
        pending
    } else {
        let p = with_alternates(pending, tried, cdns.drop_last());
        let c = cdns.last();
        if c.len() > 0 && !tried.contains(c) {
            p.push(c)
        } else {
            p
        }
    }
}

/// The end of a selection: the source fallback when there is one, else the
/// error `err`.
pub open spec fn finish_with(v: SelectionView, err: ErrorView) -> (SelectionView, ActionView) {
    (
        SelectionView { phase: Phase::Idle, ..v },
        ActionView::Finish(
            match v.fallback {
                Some(f) => Ok(f),
                None => Err(err),
            },
        ),
    )
}

/// Moves on to the next CDN in the queue: CDNs tried already are dropped,
/// `scdn...` CDNs are marked tried and dropped, and the next one is asked
/// for at the selected rate. An empty queue ends the selection with the
/// fallback, else the last error, else a report that no usable CDN was
/// advertised.
pub open spec fn advance(v: SelectionView) -> (SelectionView, ActionView)
    decreases v.pending.len(),
{
    if v.pending.len() == 0 {
        finish_with(
            v,
            match v.last_error {
                Some(e) => e,
                None => ErrorView::InvalidResponse(
                    "getH5PlayV1"@,
                    "Douyu did not advertise any usable FLV CDN"@,
                ),
            },
        )
    } else {
        let cdn = v.pending[0];
        let rest = v.pending.drop_first();
        if v.tried.contains(cdn) {
            advance(SelectionView { pending: rest, ..v })
        } else if starts_with(cdn, "scdn"@) {
            advance(SelectionView { pending: rest, tried: v.tried.push(cdn), ..v })
        } else {
            (
                SelectionView {
                    pending: rest,
                    tried: v.tried.push(cdn),
                    phase: Phase::AwaitCandidate,
                    current: cdn,
                    ..v
                },
                ActionView::Request(cdn, v.selected_rate),
            )
        }
    }
}

/// The decision on an answer for the current CDN at the selected rate: an
/// excluded CDN is passed over; an FLV URL is chosen; otherwise the failure
/// is noted and the next CDN tried.
pub open spec fn finish_candidate(v: SelectionView, c: CandidateView) -> (SelectionView, ActionView) {
    if v.excluded == Some(v.current) {
        advance(v)
    } else if c.url is Some && is_flv_url(c.url->0) {
        (SelectionView { phase: Phase::Idle, ..v }, ActionView::Finish(Ok((c.url->0, v.current))))
    } else {
        advance(
            SelectionView {
                last_error: Some(
                    ErrorView::InvalidResponse(
                        "getH5PlayV1"@,
                        "CDN "@ + v.current + " did not return an AVC FLV URL"@,
                    ),
                ),
                ..v
            },
        )
    }
}

/// The FLV URL of an answer, with the CDN that gave it.
pub open spec fn flv_choice(c: CandidateView, cdn: Seq<char>) -> Option<(Seq<char>, Seq<char>)> {
    if c.url is Some && is_flv_url(c.url->0) {
        Some((c.url->0, cdn))
    } else {
        None
    }
}

/// The decision on what a request brought.
pub open spec fn step_view(v: SelectionView, e: EventView) -> (SelectionView, ActionView) {
    match v.phase {
        Phase::AwaitCandidate => match e {
            EventView::TimedOut => finish_with(v, timeout_error()),
            EventView::Failed(err) => if v.tried.len() == 1 {
                (SelectionView { phase: Phase::Idle, ..v }, ActionView::Finish(Err(err)))
            } else {
                advance(SelectionView { last_error: Some(err), ..v })
            },
            EventView::Candidate(c) => {
                let v1 = SelectionView { pending: with_alternates(v.pending, v.tried, c.cdns), ..v };
                if v1.current.len() == 0 && v1.selected_rate == 0 {
                    let v2 = if v1.excluded != Some(v1.current) {
                        SelectionView { fallback: flv_choice(c, v1.current), ..v1 }
                    } else {
                        v1
                    };
                    match c.preferred_rate {
                        Some(rate) => if rate != 0 {
                            let v3 = SelectionView { selected_rate: rate, ..v2 };
                            if v3.excluded == Some(v3.current) {
                                advance(v3)
                            } else {
                                (
                                    SelectionView {
                                        phase: Phase::AwaitPreferred,
                                        held: Some(c),
                                        ..v3
                                    },
                                    ActionView::Request(v3.current, rate),
                                )
                            }
                        } else {
                            finish_candidate(v2, c)
                        },
                        None => finish_candidate(v2, c),
                    }
                } else {
                    finish_candidate(v1, c)
                }
            },
        },
        Phase::AwaitPreferred => match e {
            EventView::TimedOut => finish_with(v, timeout_error()),
            EventView::Candidate(p) => {
                let v1 = SelectionView {
                    pending: with_alternates(v.pending, v.tried, p.cdns),
                    held: None,
                    ..v
                };
                if v1.excluded != Some(v1.current) && p.url is Some && is_flv_url(p.url->0) {
                    (
                        SelectionView { phase: Phase::Idle, ..v1 },
                        ActionView::Finish(Ok((p.url->0, v1.current))),
                    )
                } else {
                    advance(
                        SelectionView {
                            last_error: Some(
                                ErrorView::InvalidResponse(
                                    "getH5PlayV1"@,
                                    "CDN "@ + v1.current + " did not return an AVC FLV URL at rate "@
                                        + decimal(v1.selected_rate as nat),
                                ),
                            ),
                            ..v1
                        },
                    )
                }
            },
            EventView::Failed(err) => match v.held {
                Some(c) => finish_candidate(
                    SelectionView { selected_rate: 0, last_error: Some(err), held: None, ..v },
                    c,
                ),
                None => advance(SelectionView { selected_rate: 0, last_error: Some(err), ..v }),
            },
        },
        Phase::Idle => (v, ActionView::Finish(Err(timeout_error()))),
    }
}

// ---------------------------------------------------------------------------
// What every selection keeps
// ---------------------------------------------------------------------------

/// The kept fallback is an FLV URL from a CDN that is neither excluded nor
/// named `scdn...`, and the CDN being asked is not named `scdn...` either.
pub open spec fn fallback_ok(v: SelectionView) -> bool {
    &&& v.fallback matches Some(f) ==> is_flv_url(f.0) && v.excluded != Some(f.1) && !starts_with(f.1, "scdn"@)
    &&& !starts_with(v.current, "scdn"@)
}

/// A finished action that chose a stream chose an FLV URL from a CDN that is
/// neither excluded nor named `scdn...`.
pub open spec fn choice_ok(a: ActionView, excluded: Option<Seq<char>>) -> bool {
    a matches ActionView::Finish(Ok(s)) ==> is_flv_url(s.0) && excluded != Some(s.1) && !starts_with(s.1, "scdn"@)
}

/// A request goes to a CDN not asked before and not named `scdn...`.
pub open spec fn fresh_request(v: SelectionView, r: (SelectionView, ActionView)) -> bool {
    r.1 matches ActionView::Request(cdn, rate) ==> !v.tried.contains(cdn) && !starts_with(cdn, "scdn"@)
        && r.0.tried.contains(cdn) && rate == v.selected_rate
}

proof fn advance_keeps(v: SelectionView)
    requires
        fallback_ok(v),
    ensures
        fallback_ok(advance(v).0),
        advance(v).0.excluded == v.excluded,
        choice_ok(advance(v).1, v.excluded),
        fresh_request(v, advance(v)),
        forall|c: Seq<char>| v.tried.contains(c) ==> advance(v).0.tried.contains(c),
    decreases v.pending.len(),
{
    if v.pending.len() > 0 {
        let cdn = v.pending[0];
        let rest = v.pending.drop_first();
        if v.tried.contains(cdn) {
            advance_keeps(SelectionView { pending: rest, ..v });
        } else if starts_with(cdn, "scdn"@) {
            let w = SelectionView { pending: rest, tried: v.tried.push(cdn), ..v };
            advance_keeps(w);
            assert forall|c: Seq<char>| v.tried.contains(c) implies w.tried.contains(c) by {
                let k = choose|k: int| 0 <= k < v.tried.len() && v.tried[k] == c;
                assert(w.tried[k] == c);
            }
            match advance(w).1 {
                ActionView::Request(c2, rate) => {
                    if v.tried.contains(c2) {
                        let k = choose|k: int| 0 <= k < v.tried.len() && v.tried[k] == c2;
                        assert(w.tried[k] == c2);
                    }
                },
                _ => {},
            }
        } else {
            let w = SelectionView { pending: rest, tried: v.tried.push(cdn), ..v };
            assert(w.tried[w.tried.len() - 1] == cdn);
            assert forall|c: Seq<char>| v.tried.contains(c) implies w.tried.contains(c) by {
                let k = choose|k: int| 0 <= k < v.tried.len() && v.tried[k] == c;
                assert(w.tried[k] == c);
            }
        }
    }
}

proof fn finish_candidate_keeps(v: SelectionView, c: CandidateView)
    requires
        fallback_ok(v),
    ensures
        fallback_ok(finish_candidate(v, c).0),
        finish_candidate(v, c).0.excluded == v.excluded,
        choice_ok(finish_candidate(v, c).1, v.excluded),
        fresh_request(v, finish_candidate(v, c)),
{
    if v.excluded == Some(v.current) {
        advance_keeps(v);
    } else if c.url is Some && is_flv_url(c.url->0) {
    } else {
        advance_keeps(
            SelectionView {
                last_error: Some(
                    ErrorView::InvalidResponse(
                        "getH5PlayV1"@,
                        "CDN "@ + v.current + " did not return an AVC FLV URL"@,
                    ),
                ),
                ..v
            },
        );
    }
}

/// Whatever a request brings, a selection never chooses a URL that is not
/// an HTTP(S) FLV URL, never chooses the excluded CDN or an `scdn...` one,
/// keeps only such a
/// fallback, and asks each new CDN once: a request goes either to a CDN not
/// asked before (and not `scdn...`) at the selected rate, or, for the
/// automatic CDN, at the rate its answer preferred.
pub proof fn selection_choices_are_safe(v: SelectionView, e: EventView)
    requires
        fallback_ok(v),
    ensures
        fallback_ok(step_view(v, e).0),
        step_view(v, e).0.excluded == v.excluded,
        choice_ok(step_view(v, e).1, v.excluded),
        step_view(v, e).1 matches ActionView::Request(cdn, rate) ==> (!v.tried.contains(cdn)
            && !starts_with(cdn, "scdn"@)) || (v.phase == Phase::AwaitCandidate && cdn == v.current
            && step_view(v, e).0.phase == Phase::AwaitPreferred && rate == step_view(v, e).0.selected_rate),
{
    match v.phase {
        Phase::AwaitCandidate => match e {
            EventView::TimedOut => {},
            EventView::Failed(err) => {
                if v.tried.len() != 1 {
                    advance_keeps(SelectionView { last_error: Some(err), ..v });
                }
            },
            EventView::Candidate(c) => {
                let v1 = SelectionView { pending: with_alternates(v.pending, v.tried, c.cdns), ..v };
                if v1.current.len() == 0 && v1.selected_rate == 0 {
                    let v2 = if v1.excluded != Some(v1.current) {
                        SelectionView { fallback: flv_choice(c, v1.current), ..v1 }
                    } else {
                        v1
                    };
                    match c.preferred_rate {
                        Some(rate) => if rate != 0 {
                            let v3 = SelectionView { selected_rate: rate, ..v2 };
                            if v3.excluded == Some(v3.current) {
                                advance_keeps(v3);
                            }
                        } else {
                            finish_candidate_keeps(v2, c);
                        },
                        None => finish_candidate_keeps(v2, c),
                    }
                } else {
                    finish_candidate_keeps(v1, c);
                }
            },
        },
        Phase::AwaitPreferred => match e {
            EventView::TimedOut => {},
            EventView::Candidate(p) => {
                let v1 = SelectionView {
                    pending: with_alternates(v.pending, v.tried, p.cdns),
                    held: None,
                    ..v
                };
                if !(v1.excluded != Some(v1.current) && p.url is Some && is_flv_url(p.url->0)) {
                    advance_keeps(
                        SelectionView {
                            last_error: Some(
                                ErrorView::InvalidResponse(
                                    "getH5PlayV1"@,
                                    "CDN "@ + v1.current + " did not return an AVC FLV URL at rate "@
                                        + decimal(v1.selected_rate as nat),
                                ),
                            ),
                            ..v1
                        },
                    );
                }
            },
            EventView::Failed(err) => match v.held {
                Some(c) => finish_candidate_keeps(
                    SelectionView { selected_rate: 0, last_error: Some(err), held: None, ..v },
                    c,
                ),
                None => advance_keeps(SelectionView { selected_rate: 0, last_error: Some(err), ..v }),
            },
        },
        Phase::Idle => {},
    }
}

// ---------------------------------------------------------------------------
// The code
// ---------------------------------------------------------------------------

fn contains_string(v: &Vec<String>, s: &String) -> (r: bool)
    ensures
        r == strings_view(v@).contains(s@),
{
    let ghost sv = strings_view(v@);
    let mut i: usize = 0;
    while i < v.len()
        invariant
            i <= v.len(),
            sv == strings_view(v@),
            forall|k: int| 0 <= k < i ==> sv[k] != s@,
        decreases v.len() - i,
    {
        if v[i] == *s {
            assert(sv[i as int] == s@);
            return true;
        }
        i += 1;
    }
    false
}

fn invalid_response(detail: Vec<char>) -> (r: DouyuApiError)
    ensures
        error_view(r) == ErrorView::InvalidResponse("getH5PlayV1"@, detail@),
{
    DouyuApiError::InvalidResponse { endpoint: String::from_str("getH5PlayV1"), detail: string_of(&detail) }
}

impl CdnSelection {
    /// The queue with the CDNs of `cdns` added (see `with_alternates`).
    fn add_alternates(&mut self, cdns: &Vec<String>)
        ensures
            final(self).view() == (SelectionView {
                pending: with_alternates(old(self).view().pending, old(self).view().tried, strings_view(cdns@)),
                ..old(self).view()
            }),
    {
        let ghost cv = strings_view(cdns@);
        let ghost p0 = strings_view(self.pending@);
        let mut i: usize = 0;
        assert(cv.take(0) =~= Seq::<Seq<char>>::empty());
        while i < cdns.len()
            invariant
                i <= cdns.len(),
                cv == strings_view(cdns@),
                self.view() == (SelectionView {
                    pending: with_alternates(p0, old(self).view().tried, cv.take(i as int)),
                    ..old(self).view()
                }),
            decreases cdns.len() - i,
        {
            assert(cv.take(i + 1).drop_last() =~= cv.take(i as int));
            assert(cv.take(i + 1).last() == cdns@[i as int]@);
            let c = &cdns[i];
            if !c.as_str().is_empty() && !contains_string(&self.tried, c) {
                let ghost before = strings_view(self.pending@);
                self.pending.push_back(c.clone());
                assert(strings_view(self.pending@) =~= before.push(c@));
            }
            i += 1;
        }
        assert(cv.take(cdns.len() as int) =~= cv);
    }

    fn finish_with_error(self, err: DouyuApiError) -> (r: (CdnSelection, SelectionAction))
        ensures
            (r.0.view(), action_view(r.1)) == finish_with(self.view(), error_view(err)),
    {
        let mut s = self;
        s.phase = Phase::Idle;
        match &s.source_fallback {
            Some(f) => {
                let copy = SelectedStream { url: f.url.clone(), cdn: f.cdn.clone() };
                (s, SelectionAction::Finish(Ok(copy)))
            },
            None => (s, SelectionAction::Finish(Err(err))),
        }
    }

    /// Moves on to the next CDN (see `advance`).
    fn advance(self) -> (r: (CdnSelection, SelectionAction))
        ensures
            (r.0.view(), action_view(r.1)) == advance(self.view()),
    {
        let mut s = self;
        while s.pending.len() > 0
            invariant
                advance(s.view()) == advance(self.view()),
            decreases s.pending.len(),
        {
            let ghost v = s.view();
            let cdn = match s.pending.pop_front() {
                Some(c) => c,
                None => {
                    assert(false);
                    String::new()
                },
            };
            assert(strings_view(s.pending@) =~= v.pending.drop_first());
            assert(cdn@ == v.pending[0]);
            if contains_string(&s.tried, &cdn) {
                assert(s.view() == SelectionView { pending: v.pending.drop_first(), ..v });
            } else if starts_with_str(&chars_of(cdn.as_str()), "scdn") {
                s.tried.push(cdn);
                assert(strings_view(s.tried@) =~= v.tried.push(v.pending[0]));
                assert(s.view() == SelectionView {
                    pending: v.pending.drop_first(),
                    tried: v.tried.push(v.pending[0]),
                    ..v
                });
            } else {
                s.tried.push(cdn.clone());
                assert(strings_view(s.tried@) =~= v.tried.push(v.pending[0]));
                s.phase = Phase::AwaitCandidate;
                s.current = cdn.clone();
                let rate = s.selected_rate;
                return (s, SelectionAction::Request { cdn, rate });
            }
        }
        let err = match &s.last_error {
            Some(e) => e.clone_error(),
            None => invalid_response(chars_of("Douyu did not advertise any usable FLV CDN")),
        };
        s.finish_with_error(err)
    }

    /// The decision on an answer for the current CDN (see `finish_candidate`).
    fn finish_candidate(self, c: StreamCandidate) -> (r: (CdnSelection, SelectionAction))
        ensures
            (r.0.view(), action_view(r.1)) == finish_candidate(self.view(), candidate_view(c)),
    {
        let mut s = self;
        let excluded = match &s.excluded_cdn {
            Some(x) => *x == s.current,
            None => false,
        };
        if excluded {
            return s.advance();
        }
        match valid_flv_url(&c.url) {
            Some(url) => {
                s.phase = Phase::Idle;
                let cdn = s.current.clone();
                (s, SelectionAction::Finish(Ok(SelectedStream { url, cdn })))
            },
            None => {
                let mut detail = chars_of("CDN ");
                append_str(&mut detail, s.current.as_str());
                append_str(&mut detail, " did not return an AVC FLV URL");
                s.last_error = Some(invalid_response(detail));
                s.advance()
            },
        }
    }

    /// Starts a selection that must not choose `excluded_cdn`: the automatic
    /// CDN is asked for first, at the default rate.
    pub fn start(excluded_cdn: Option<String>) -> (r: (CdnSelection, SelectionAction))
        ensures
            r.0.view().excluded == opt_view(excluded_cdn),
            action_view(r.1) == ActionView::Request(Seq::empty(), 0),
            r.0.view().phase == Phase::AwaitCandidate,
            r.0.view().current == Seq::<char>::empty(),
            r.0.view().tried == seq![Seq::<char>::empty()],
            r.0.view().pending == Seq::<Seq<char>>::empty(),
            r.0.view().selected_rate == 0,
            r.0.view().fallback is None,
            r.0.view().last_error is None,
            fallback_ok(r.0.view()),
    {
        let mut pending: VecDeque<String> = VecDeque::new();
        pending.push_back(String::new());
        let s = CdnSelection {
            pending,
            tried: Vec::new(),
            last_error: None,
            selected_rate: 0,
            source_fallback: None,
            excluded_cdn,
            phase: Phase::Idle,
            current: String::new(),
            held: None,
        };
        proof {
            reveal_strlit("scdn");
            assert(strings_view(s.pending@) =~= seq![Seq::<char>::empty()]);
            assert(strings_view(s.tried@) =~= Seq::<Seq<char>>::empty());
            assert(!starts_with(Seq::<char>::empty(), "scdn"@));
            assert(strings_view(s.pending@).drop_first() =~= Seq::<Seq<char>>::empty());
            assert(Seq::<Seq<char>>::empty().push(Seq::<char>::empty()) =~= seq![Seq::<char>::empty()]);
        }
        s.advance()
    }

    /// The decision on what the last request brought (see `step_view`).
    pub fn step(self, event: SelectionEvent) -> (r: (CdnSelection, SelectionAction))
        ensures
            (r.0.view(), action_view(r.1)) == step_view(self.view(), event_view(event)),
    {
        let mut s = self;
        match s.phase {
            Phase::AwaitCandidate => match event {
                SelectionEvent::TimedOut => {
                    s.finish_with_error(invalid_response(chars_of("timed out selecting a playable FLV CDN")))
                },
                SelectionEvent::Failed(err) => {
                    if s.tried.len() == 1 {
                        s.phase = Phase::Idle;
                        (s, SelectionAction::Finish(Err(err)))
                    } else {
                        s.last_error = Some(err);
                        s.advance()
                    }
                },
                SelectionEvent::Candidate(c) => {
                    s.add_alternates(&c.cdns);
                    if s.current.as_str().is_empty() && s.selected_rate == 0 {
                        let excluded = match &s.excluded_cdn {
                            Some(x) => *x == s.current,
                            None => false,
                        };
                        if !excluded {
                            s.source_fallback = match valid_flv_url(&c.url) {
                                Some(url) => Some(SelectedStream { url, cdn: s.current.clone() }),
                                None => None,
                            };
                        }
                        match c.preferred_rate {
                            Some(rate) => {
                                if rate != 0 {
                                    s.selected_rate = rate;
                                    if excluded {
                                        return s.advance();
                                    }
                                    s.phase = Phase::AwaitPreferred;
                                    let cdn = s.current.clone();
                                    s.held = Some(c);
                                    return (s, SelectionAction::Request { cdn, rate });
                                }
                                s.finish_candidate(c)
                            },
                            None => s.finish_candidate(c),
                        }
                    } else {
                        s.finish_candidate(c)
                    }
                },
            },
            Phase::AwaitPreferred => match event {
                SelectionEvent::TimedOut => {
                    s.finish_with_error(invalid_response(chars_of("timed out selecting a playable FLV CDN")))
                },
                SelectionEvent::Candidate(p) => {
                    s.add_alternates(&p.cdns);
                    s.held = None;
                    let excluded = match &s.excluded_cdn {
                        Some(x) => *x == s.current,
                        None => false,
                    };
                    if !excluded {
                        if let Some(url) = valid_flv_url(&p.url) {
                            s.phase = Phase::Idle;
                            let cdn = s.current.clone();
                            return (s, SelectionAction::Finish(Ok(SelectedStream { url, cdn })));
                        }
                    }
                    let mut detail = chars_of("CDN ");
                    append_str(&mut detail, s.current.as_str());
                    append_str(&mut detail, " did not return an AVC FLV URL at rate ");
                    push_decimal(&mut detail, s.selected_rate);
                    s.last_error = Some(invalid_response(detail));
                    s.advance()
                },
                SelectionEvent::Failed(err) => {
                    s.selected_rate = 0;
                    s.last_error = Some(err);
                    let held = s.held.take();
                    match held {
                        Some(c) => s.finish_candidate(c),
                        None => s.advance(),
                    }
                },
            },
            Phase::Idle => {
                let e = invalid_response(chars_of("timed out selecting a playable FLV CDN"));
                (s, SelectionAction::Finish(Err(e)))
            },
        }
    }
}

impl DouyuApiError {
    /// A copy of the error.
    pub fn clone_error(&self) -> (r: DouyuApiError)
        ensures
            error_view(r) == error_view(*self),
    {
        match self {
            DouyuApiError::Offline { detail } => DouyuApiError::Offline { detail: detail.clone() },
            DouyuApiError::Authentication { detail } => DouyuApiError::Authentication {
                detail: detail.clone(),
            },
            DouyuApiError::Api { endpoint, code, message } => DouyuApiError::Api {
                endpoint: endpoint.clone(),
                code: *code,
                message: message.clone(),
            },
            DouyuApiError::InvalidResponse { endpoint, detail } => DouyuApiError::InvalidResponse {
                endpoint: endpoint.clone(),
                detail: detail.clone(),
            },
        }
    }
}

} // verus!
