//! What a platform poll reports and how a recording pulls its stream.
use vstd::prelude::*;

use crate::media::HlsStream;
use crate::outside::{now_unix_millis, opt_view, random_u64};
use crate::text::{push_signed_decimal, signed_decimal, string_of};
use crate::UserInfo;
use std::sync::Arc;

verus! {

/// Room metadata from one platform poll.
pub struct RoomPoll {
    /// Whether the room is currently live.
    pub live: bool,
    pub room_title: String,
    pub room_cover: String,
    /// `Some` overwrites the cached user info.
    pub user: Option<UserInfo>,
    /// Refreshes the platform live id while live.
    pub platform_live_id: Option<String>,
}

/// How a platform's danmu task is spawned and torn down.
#[derive(Clone, Copy, PartialEq, Eq, Debug)]
pub enum DanmuSpawn {
    /// Spawned for every recording attempt, aborted when it ends.
    PerRecording,
    /// Spawned once when the loop starts, kept alive across recordings.
    LongLived,
}

/// How a recording attempt pulls the live stream.
pub enum StreamPull {
    Hls { stream: Arc<HlsStream>, cookies: Option<String> },
    Flv {
        url: String,
        /// The viewer identity used while probing this URL.
        user_agent: Option<String>,
        /// Extra HTTP headers for the pull request.
        http_headers: Vec<(String, String)>,
    },
}

/// The state of a recorder that its recording loop decides on: the room's
/// last polled status, the live session (`platform_live_id`, and the resume
/// information `pre_live_id` and `should_continue`) and the current recording
/// attempt (`live_id`, `recording`, `last_sequence`).
pub struct Session {
    /// Whether the room was live at the last successful poll.
    pub live: bool,
    /// The platform-side id of the current live, empty when unknown.
    pub platform_live_id: String,
    /// The id of the running recording, empty when none runs.
    pub live_id: String,
    /// The id of the last recording of this live, kept for a resume.
    pub pre_live_id: Option<String>,
    /// Whether the next attempt resumes the last recording.
    pub should_continue: bool,
    /// Whether a recording attempt is running.
    pub recording: bool,
    /// The last media sequence that the running attempt stored.
    pub last_sequence: u64,
}

/// A session as values.
pub struct SessionView {
    pub live: bool,
    pub platform_live_id: Seq<char>,
    pub live_id: Seq<char>,
    pub pre_live_id: Option<Seq<char>>,
    pub should_continue: bool,
    pub recording: bool,
    pub last_sequence: u64,
}

impl View for Session {
    type V = SessionView;

    open spec fn view(&self) -> SessionView {
        SessionView {
            live: self.live,
            platform_live_id: self.platform_live_id@,
            live_id: self.live_id@,
            pre_live_id: opt_view(self.pre_live_id),
            should_continue: self.should_continue,
            recording: self.recording,
            last_sequence: self.last_sequence,
        }
    }
}

/// What an event about the session reports of it: the fields that the
/// recorder's info carries.
pub struct SessionSnapshot {
    pub platform_live_id: String,
    pub live_id: String,
    pub recording: bool,
}

impl View for SessionSnapshot {
    type V = (Seq<char>, Seq<char>, bool);

    open spec fn view(&self) -> (Seq<char>, Seq<char>, bool) {
        (self.platform_live_id@, self.live_id@, self.recording)
    }
}

/// The snapshot of a session.
pub open spec fn snapshot_of(s: SessionView) -> (Seq<char>, Seq<char>, bool) {
    (s.platform_live_id, s.live_id, s.recording)
}

/// A session after its recording attempt is reset: no attempt runs and no
/// live id is current; the live session and its resume information stay.
pub open spec fn recording_reset(s: SessionView) -> SessionView {
    SessionView { live_id: Seq::empty(), recording: false, last_sequence: 0, ..s }
}

/// A session after the whole live session is cleared.
pub open spec fn live_reset(s: SessionView) -> SessionView {
    SessionView {
        platform_live_id: Seq::empty(),
        pre_live_id: None,
        should_continue: false,
        ..recording_reset(s)
    }
}

impl Session {
    /// A recorder's state before its first poll.
    pub fn new() -> (r: Session)
        ensures
            r@ == (SessionView {
                live: false,
                platform_live_id: Seq::empty(),
                live_id: Seq::empty(),
                pre_live_id: None,
                should_continue: false,
                recording: false,
                last_sequence: 0,
            }),
    {
        Session {
            live: false,
            platform_live_id: String::new(),
            live_id: String::new(),
            pre_live_id: None,
            should_continue: false,
            recording: false,
            last_sequence: 0,
        }
    }

    /// The snapshot that an event about this session carries.
    pub fn snapshot(&self) -> (r: SessionSnapshot)
        ensures
            r@ == snapshot_of(self@),
    {
        SessionSnapshot {
            platform_live_id: self.platform_live_id.clone(),
            live_id: self.live_id.clone(),
            recording: self.recording,
        }
    }

    /// Resets the state that a recording attempt owns; the live session and
    /// its resume information are kept. (The caller also drops the attempt's
    /// stream and danmu storage.)
    pub fn reset_recording(&mut self)
        ensures
            final(self)@ == recording_reset(old(self)@),
    {
        self.recording = false;
        self.last_sequence = 0;
        self.live_id = String::new();
    }

    /// Clears all state of the current live session.
    pub fn reset_live(&mut self)
        ensures
            final(self)@ == live_reset(old(self)@),
    {
        self.reset_recording();
        self.platform_live_id = String::new();
        self.pre_live_id = None;
        self.should_continue = false;
    }

    /// Ends the live: the snapshot for the `LiveEnd` event is taken first, so
    /// it still shows the session, which is then cleared.
    pub fn end_live(&mut self) -> (r: SessionSnapshot)
        ensures
            r@ == snapshot_of(old(self)@),
            final(self)@ == live_reset(old(self)@),
    {
        let snapshot = self.snapshot();
        self.reset_live();
        snapshot
    }
}

/// What one poll of the room gave.
pub enum PollResult {
    /// The platform answered: whether the room is live, and the platform's
    /// live id when it reports one.
    Polled { live: bool, platform_live_id: Option<String> },
    /// The poll failed; `throttled` when the platform asks to back off.
    Failed { throttled: bool },
}

/// A change of the room's live status, as an event to emit.
pub enum LiveEdge {
    /// The room went live: after the platform's live-start hook, emit
    /// `LiveStart`.
    Started,
    /// The live ended: emit `LiveEnd` with this snapshot of the session as
    /// it was before it was cleared.
    Ended(SessionSnapshot),
}

/// What a poll decided.
pub struct LiveCheck {
    /// The live status change to report, if the status changed.
    pub edge: Option<LiveEdge>,
    /// Whether the session was cleared, so that the caller also drops the
    /// recording attempt's stream and danmu storage.
    pub cleared: bool,
    /// `Some(b)`: the poll's answer to "make a recording attempt?" is `b`.
    /// `None`: the room is live, and the answer is whether recording is
    /// wanted and the platform's stream refresh succeeds.
    pub verdict: Option<bool>,
}

/// The session after a poll that reported `live` (and maybe a platform live
/// id): a new live starts from a cleared session; the platform live id is
/// taken while live; a room that is not live has its session cleared.
pub open spec fn after_poll(s: SessionView, live: bool, platform_live_id: Option<Seq<char>>) -> SessionView {
    if live {
        let base = if !s.live { live_reset(s) } else { s };
        let with_id = match platform_live_id {
            Some(id) => SessionView { platform_live_id: id, ..base },
            None => base,
        };
        SessionView { live: true, ..with_id }
    } else {
        SessionView { live: false, ..live_reset(s) }
    }
}

impl Session {
    /// One poll of the room status: records the new status, clears the
    /// session when a new live starts or the room is not live, reports a
    /// status change, and says whether a recording attempt may follow. A
    /// failed poll changes nothing: the room keeps its previous status, or
    /// counts as not live when the platform throttles.
    pub fn apply_poll(&mut self, poll: PollResult) -> (r: LiveCheck)
        ensures
            match poll {
                PollResult::Polled { live, platform_live_id } => {
                    &&& final(self)@ == after_poll(old(self)@, live, opt_view(platform_live_id))
                    &&& r.cleared == (!live || !old(self).live)
                    &&& r.verdict == (if live { None } else { Some(false) })
                    &&& (r.edge is None <==> live == old(self).live)
                    &&& (r.edge matches Some(LiveEdge::Started) <==> (live && !old(self).live))
                    &&& (r.edge matches Some(LiveEdge::Ended(snap)) ==> (!live && old(self).live
                        && snap@ == snapshot_of(old(self)@)))
                },
                PollResult::Failed { throttled } => {
                    &&& final(self)@ == old(self)@
                    &&& !r.cleared
                    &&& r.edge is None
                    &&& r.verdict == Some(if throttled { false } else { old(self).live })
                },
            },
    {
        match poll {
            PollResult::Polled { live, platform_live_id } => {
                let pre = self.live;
                self.live = live;
                if live {
                    if !pre {
                        self.reset_live();
                    }
                    if let Some(id) = platform_live_id {
                        self.platform_live_id = id;
                    }
                    let edge = if !pre { Some(LiveEdge::Started) } else { None };
                    LiveCheck { edge, cleared: !pre, verdict: None }
                } else {
                    let edge = if pre { Some(LiveEdge::Ended(self.end_live())) } else { None };
                    self.reset_live();
                    LiveCheck { edge, cleared: true, verdict: Some(false) }
                }
            },
            PollResult::Failed { throttled } => {
                let verdict = if throttled { false } else { self.live };
                LiveCheck { edge: None, cleared: false, verdict: Some(verdict) }
            },
        }
    }
}

/// The session and the live id after a live id is asked for at `now` (Unix
/// milliseconds): a recording cut by an expired stream is resumed under its
/// previous id when the platform sees the same recording; otherwise the id is
/// the decimal time, kept for a later resume. The resume request is used up
/// either way.
pub open spec fn next_live(s: SessionView, now: int, same_recording: bool) -> (SessionView, Seq<char>) {
    let resuming = s.pre_live_id is Some && s.should_continue;
    let s1 = if resuming { SessionView { should_continue: false, ..s } } else { s };
    if resuming && same_recording {
        (s1, s.pre_live_id->0)
    } else {
        (SessionView { pre_live_id: Some(signed_decimal(now)), ..s1 }, signed_decimal(now))
    }
}

/// The session once a recording attempt under `live_id` has started.
pub open spec fn started(s: SessionView, live_id: Seq<char>) -> SessionView {
    SessionView { live_id, recording: true, ..s }
}

/// The session, the snapshot for a `RecordEnd` event if one is owed, and
/// whether to try again at once, after a recording attempt ended (`expired`
/// when its stream expired). `RecordEnd` is owed only when the attempt got as
/// far as `RecordStart`, that is when a live id is current.
pub open spec fn attempt_end(s: SessionView, expired: bool) -> (
    SessionView,
    Option<(Seq<char>, Seq<char>, bool)>,
    bool,
) {
    let s1 = if expired { SessionView { should_continue: true, ..s } } else { s };
    let record_end = if s1.live_id.len() > 0 { Some(snapshot_of(s1)) } else { None };
    (recording_reset(s1), record_end, s1.should_continue)
}

/// The snapshot in an optional event, as values.
pub open spec fn opt_snapshot(o: Option<SessionSnapshot>) -> Option<(Seq<char>, Seq<char>, bool)> {
    match o {
        Some(s) => Some(s@),
        None => None,
    }
}

/// How a recording attempt ended, for the loop's next step.
pub struct AttemptEnd {
    /// The snapshot for the `RecordEnd` event, when one is owed.
    pub record_end: Option<SessionSnapshot>,
    /// Whether to start the next attempt at once (a resume after an expired
    /// stream) rather than after a short pause.
    pub resume_now: bool,
}

impl Session {
    /// The live id for a recording attempt at `now` (Unix milliseconds), see
    /// `next_live`. `same_recording` is the platform's answer to whether the
    /// live it sees now is the one that was being recorded; platforms without
    /// such a notion answer `true`.
    pub fn next_live_id_at(&mut self, now: i64, same_recording: bool) -> (r: String)
        ensures
            (final(self)@, r@) == next_live(old(self)@, now as int, same_recording),
    {
        if self.pre_live_id.is_some() && self.should_continue {
            self.should_continue = false;
            if same_recording {
                let previous = match &self.pre_live_id {
                    Some(p) => p.clone(),
                    None => String::new(),
                };
                return previous;
            }
        }
        let mut digits: Vec<char> = Vec::new();
        push_signed_decimal(&mut digits, now);
        let live_id = string_of(&digits);
        self.pre_live_id = Some(live_id.clone());
        live_id
    }

    /// The live id for a recording attempt, taken at the current time: either
    /// the resumed previous id or the decimal time, as `next_live` says for
    /// some time.
    pub fn next_live_id(&mut self, same_recording: bool) -> (r: String)
        ensures
            exists|now: i64| #[trigger] next_live(old(self)@, now as int, same_recording) == (final(self)@, r@),
    {
        let now = now_unix_millis();
        self.next_live_id_at(now, same_recording)
    }

    /// Marks a recording attempt under `live_id` as started, right before its
    /// `RecordStart` event.
    pub fn begin_recording(&mut self, live_id: &str)
        ensures
            final(self)@ == started(old(self)@, live_id@),
    {
        self.live_id = live_id.to_string();
        self.recording = true;
    }

    /// Closes a recording attempt (`expired` when it ended because its stream
    /// expired, which asks for a resume): see `attempt_end`.
    pub fn finish_attempt(&mut self, expired: bool) -> (r: AttemptEnd)
        ensures
            (final(self)@, opt_snapshot(r.record_end), r.resume_now) == attempt_end(old(self)@, expired),
    {
        if expired {
            self.should_continue = true;
        }
        let record_end = if !self.live_id.as_str().is_empty() { Some(self.snapshot()) } else { None };
        self.reset_recording();
        AttemptEnd { record_end, resume_now: self.should_continue }
    }
}

/// The pause in seconds before the next poll of a room that is not live,
/// given a random value: at least ten seconds for short configured intervals,
/// to stay under the platforms' rate limits, and a jitter of up to four
/// seconds on longer ones.
pub open spec fn poll_delay(interval_secs: u64, random: u64) -> int {
    if interval_secs <= 10 {
        (random % 11) + 10
    } else {
        interval_secs + random % 5
    }
}

/// `poll_delay` for a given random value.
pub fn status_poll_delay_with(interval_secs: u64, random: u64) -> (r: u64)
    requires
        interval_secs + 4 <= u64::MAX,
    ensures
        r == poll_delay(interval_secs, random),
{
    if interval_secs <= 10 {
        random % 11 + 10
    } else {
        interval_secs + random % 5
    }
}

/// The pause in seconds before the next poll of a room that is not live,
/// with a fresh random value.
pub fn status_poll_delay(interval_secs: u64) -> (r: u64)
    requires
        interval_secs + 4 <= u64::MAX,
    ensures
        interval_secs <= 10 ==> 10 <= r <= 20,
        interval_secs > 10 ==> interval_secs <= r <= interval_secs + 4,
        exists|random: u64| r == #[trigger] poll_delay(interval_secs, random),
{
    let random = random_u64();
    status_poll_delay_with(interval_secs, random)
}

/// The pause in seconds after a recording attempt before the room is polled
/// again, given a random value: two to five seconds.
pub fn retry_delay_with(random: u64) -> (r: u64)
    ensures
        r == random % 4 + 2,
{
    random % 4 + 2
}

/// The pause after a recording attempt, with a fresh random value.
pub fn retry_delay() -> (r: u64)
    ensures
        2 <= r <= 5,
{
    retry_delay_with(random_u64())
}

/// Resetting a recording attempt keeps the live session: the platform live
/// id, the resume information and the room status stay, while no attempt and
/// no live id remain.
pub proof fn recording_reset_keeps_the_session(s: SessionView)
    ensures
        recording_reset(s).platform_live_id == s.platform_live_id,
        recording_reset(s).pre_live_id == s.pre_live_id,
        recording_reset(s).should_continue == s.should_continue,
        recording_reset(s).live == s.live,
        recording_reset(s).live_id.len() == 0,
        !recording_reset(s).recording,
{
}

/// The live id handed out for an attempt is the one kept for a resume.
pub proof fn handed_out_live_id_is_kept(s: SessionView, now: int, same_recording: bool)
    ensures
        next_live(s, now, same_recording).0.pre_live_id == Some(next_live(s, now, same_recording).1),
{
}

/// A recording whose stream expired is resumed under the same live id: after
/// an attempt under the id handed out at `t1` ends expired, the id asked for
/// next (for the same recording) is that id again, whatever the time `t2`.
pub proof fn expired_recording_resumes_under_its_id(s: SessionView, t1: int, t2: int, same_recording: bool)
    ensures
        ({
            let (s1, id) = next_live(s, t1, same_recording);
            let (s2, _, resume_now) = attempt_end(started(s1, id), true);
            resume_now && next_live(s2, t2, true).1 == id
        }),
{
}

/// `RecordEnd` follows only a `RecordStart`: an attempt that failed before it
/// started (the session was just reset) owes no `RecordEnd`, while one that
/// started under a non-empty live id owes one that names that id.
pub proof fn record_end_follows_record_start(s: SessionView, live_id: Seq<char>, expired: bool)
    ensures
        attempt_end(recording_reset(s), expired).1 is None,
        live_id.len() > 0 ==> (attempt_end(started(s, live_id), expired).1 matches Some(snap)
            && snap.1 == live_id && snap.2),
{
}

/// A new live starts from a cleared session: no recording, no live id and no
/// resume information of an earlier live survive, and the platform live id is
/// the one the poll reported, if any.
pub proof fn new_live_starts_fresh(s: SessionView, platform_live_id: Option<Seq<char>>)
    requires
        !s.live,
    ensures
        ({
            let n = after_poll(s, true, platform_live_id);
            &&& n.live
            &&& !n.recording
            &&& n.live_id.len() == 0
            &&& n.pre_live_id is None
            &&& !n.should_continue
            &&& n.platform_live_id == (match platform_live_id {
                Some(id) => id,
                None => Seq::empty(),
            })
        }),
{
}

/// A room that is not live keeps no session: whatever the poll reported,
/// nothing of the live (id, resume information, recording) remains.
pub proof fn offline_room_keeps_no_session(s: SessionView, platform_live_id: Option<Seq<char>>)
    ensures
        after_poll(s, false, platform_live_id) == (SessionView { live: false, ..live_reset(s) }),
        after_poll(s, false, platform_live_id).pre_live_id is None,
        after_poll(s, false, platform_live_id).platform_live_id.len() == 0,
        !after_poll(s, false, platform_live_id).should_continue,
{
}

} // verus!
