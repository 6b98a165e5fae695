//! The stream overlay: the server's checks on an overlay session, the
//! dashboard's "overlay active" test, and the overlay page's own state
//! machine that polls for paid donations, claims them one at a time and
//! shows them with a sound whose source falls back step by step.
use vstd::prelude::*;
use crate::text::{contains, contains_seq, occurs_at, owned, str_eq, to_chars};

verus! {

/// Why the server refuses an overlay request.
#[derive(Clone, Copy, Debug, PartialEq, Eq, Structural)]
pub enum OverlayError {
    /// No streamer has this overlay token.
    InvalidToken,
    /// Another overlay window has taken over the streamer's session.
    SessionRevoked,
}

impl OverlayError {
    /// The error text the server answers with.
    pub open spec fn text(self) -> Seq<char> {
        match self {
            OverlayError::InvalidToken => "Invalid overlay token"@,
            OverlayError::SessionRevoked => "SessionRevoked"@,
        }
    }

    /// The error text the server answers with.
    pub fn message(&self) -> (s: String)
        ensures
            s@ == self.text(),
    {
        match self {
            OverlayError::InvalidToken => owned("Invalid overlay token"),
            OverlayError::SessionRevoked => owned("SessionRevoked"),
        }
    }
}

/// Whether the overlay session `session_id` is the one the streamer's
/// record holds as active.
pub open spec fn session_matches(active: Option<String>, session_id: Seq<char>) -> bool {
    active matches Some(a) && a@ == session_id
}

/// Registering an overlay session: updating no streamer row means the
/// token is unknown.
pub fn session_init_result(rows_affected: u64) -> (r: Result<(), OverlayError>)
    ensures
        rows_affected == 0 ==> r == Err::<(), OverlayError>(OverlayError::InvalidToken),
        rows_affected != 0 ==> r is Ok,
{
    if rows_affected == 0 {
        Err(OverlayError::InvalidToken)
    } else {
        Ok(())
    }
}

/// Checks that a request comes from the streamer's active overlay session.
pub fn check_overlay_session(active: &Option<String>, session_id: &str) -> (r: Result<
    (),
    OverlayError,
>)
    ensures
        session_matches(*active, session_id@) ==> r is Ok,
        !session_matches(*active, session_id@) ==> r == Err::<(), OverlayError>(
            OverlayError::SessionRevoked,
        ),
{
    match active {
        Some(a) => {
            if str_eq(a.as_str(), session_id) {
                Ok(())
            } else {
                Err(OverlayError::SessionRevoked)
            }
        },
        None => Err(OverlayError::SessionRevoked),
    }
}

/// The server's answer to an overlay poll, before it reads any donation:
/// refused for a stale session, otherwise whether donations are to be
/// fetched (not while the streamer has paused the overlay).
pub fn overlay_poll_decision(active: &Option<String>, session_id: &str, paused: bool) -> (r: Result<
    bool,
    OverlayError,
>)
    ensures
        !session_matches(*active, session_id@) ==> r == Err::<bool, OverlayError>(
            OverlayError::SessionRevoked,
        ),
        session_matches(*active, session_id@) ==> r == Ok::<bool, OverlayError>(!paused),
{
    match check_overlay_session(active, session_id) {
        Ok(()) => Ok(!paused),
        Err(e) => Err(e),
    }
}

/// Opening an overlay session takes over from the previous one: once the
/// streamer's record holds the new session id, requests of the new session
/// pass the session check and requests of any other session are refused as
/// revoked.
pub proof fn law_new_session_revokes_old(active: String, new_session: Seq<char>, old_session: Seq<char>)
    requires
        active@ == new_session,
        old_session != new_session,
    ensures
        session_matches(Some(active), new_session),
        !session_matches(Some(active), old_session),
{
}

/// Claiming a donation for display succeeded when the update from
/// `READY_FOR_DISPLAY` to `DISPLAYED` changed a row.
pub fn lock_acquired(rows_affected: u64) -> (b: bool)
    ensures
        b == (rows_affected > 0),
{
    rows_affected > 0
}

/// Whole seconds between two instants given in nanoseconds, truncated
/// toward zero as `TimeDelta::num_seconds` does.
pub open spec fn whole_seconds(delta_ns: int) -> int {
    if delta_ns >= 0 {
        delta_ns / 1_000_000_000
    } else {
        -((-delta_ns) / 1_000_000_000)
    }
}

/// The time from `ping` to `now`, in nanoseconds, for instants given as
/// whole seconds since the epoch and a sub-second part in nanoseconds.
pub open spec fn delta_ns(now_secs: i64, now_nanos: u32, ping_secs: i64, ping_nanos: u32) -> int {
    (now_secs - ping_secs) * 1_000_000_000 + (now_nanos - ping_nanos)
}

/// The dashboard shows the overlay as active when its last ping is at most
/// ten whole seconds old (or in the future). Instants are given as seconds
/// since the epoch and their sub-second nanoseconds.
pub fn overlay_is_active(now_secs: i64, now_nanos: u32, ping_secs: i64, ping_nanos: u32) -> (b: bool)
    requires
        now_nanos < 2_000_000_000,
        ping_nanos < 2_000_000_000,
    ensures
        b == (whole_seconds(delta_ns(now_secs, now_nanos, ping_secs, ping_nanos)) <= 10),
{
    let secs: i128 = now_secs as i128 - ping_secs as i128;
    assert(-0x1_0000_0000_0000_0000i128 <= secs <= 0x1_0000_0000_0000_0000i128);
    let delta: i128 = secs * 1_000_000_000i128 + (now_nanos as i128 - ping_nanos as i128);
    delta < 11_000_000_000i128
}

/// What the overlay's display loop does on a tick.
#[derive(Clone, Copy, Debug, PartialEq, Eq, Structural)]
pub enum DisplayStep {
    /// The session was revoked: the loop ends.
    Stop,
    /// Nothing to do now.
    Idle,
    /// Claim the donation at the front of the queue on the server.
    LockFront,
}

/// What to do once the server answered a claim.
#[derive(Clone, Copy, Debug, PartialEq, Eq, Structural)]
pub enum LockOutcome {
    /// Show the donation, with its sound when sound is enabled.
    Show { play_sound: bool },
    /// Another overlay claimed it: skip it.
    Skip,
}

/// What the overlay page shows.
#[derive(Clone, Copy, Debug, PartialEq, Eq, Structural)]
pub enum OverlayScreen {
    /// The session was taken over by another overlay window.
    Revoked,
    /// The browser blocked audio: ask for a click.
    NeedsInteraction,
    /// A donation is on screen.
    Showing,
    /// Nothing on screen.
    Empty,
}

/// The overlay page's state.
pub struct OverlayState<T> {
    revoked: bool,
    interaction_required: bool,
    queue: Vec<T>,
    playing: bool,
    sound_enabled: bool,
    primary_media: Option<String>,
    fallback_media: Option<String>,
    fallback_level: u8,
    current: Option<T>,
}

/// The overlay page's state as plain values.
pub struct OverlayView<T> {
    pub revoked: bool,
    pub interaction_required: bool,
    pub queue: Seq<T>,
    pub playing: bool,
    pub sound_enabled: bool,
    pub primary_media: Option<Seq<char>>,
    pub fallback_media: Option<Seq<char>>,
    pub fallback_level: nat,
    pub current: Option<T>,
}

/// The text of an optional string.
pub open spec fn opt_view(o: Option<String>) -> Option<Seq<char>> {
    match o {
        Some(s) => Some(s@),
        None => None,
    }
}

/// The path of the sound played when no configured media is usable.
pub open spec fn default_sound_path() -> Seq<char> {
    "/public/default_donate.mp3"@
}

/// The sound source for a fallback level: the streamer's media at level 0,
/// the chosen fallback file at levels 0 and 1, then the built-in sound.
pub open spec fn audio_source_for(
    level: nat,
    primary: Option<Seq<char>>,
    fallback: Option<Seq<char>>,
) -> Seq<char> {
    if level == 0 && primary is Some {
        primary->0
    } else if level <= 1 && fallback is Some {
        fallback->0
    } else {
        default_sound_path()
    }
}

/// What happens to the overlay page: the server's answer to a session
/// registration or a poll, a tick of the display loop, the server's answer
/// to a claim, the end of a donation's time on screen and of the pause
/// after it, and the browser's audio events.
pub enum OverlayEvent<T> {
    SessionInitFailed,
    Poll {
        transactions: Seq<T>,
        sound_enabled: bool,
        primary_media: Option<Seq<char>>,
        fallback_media: Seq<char>,
    },
    PollError { message: Seq<char> },
    Tick,
    LockResolved { transaction: T, locked: bool },
    DisplayFinished,
    ReadyForNext,
    AudioBlocked,
    UnlockAudio,
    AudioError,
}

/// What a tick of the display loop does in state `v`.
pub open spec fn tick_step<T>(v: OverlayView<T>) -> DisplayStep {
    if v.revoked {
        DisplayStep::Stop
    } else if v.playing || v.queue.len() == 0 {
        DisplayStep::Idle
    } else {
        DisplayStep::LockFront
    }
}

/// What the overlay page shows in state `v`.
pub open spec fn screen_of<T>(v: OverlayView<T>) -> OverlayScreen {
    if v.revoked {
        OverlayScreen::Revoked
    } else if v.interaction_required {
        OverlayScreen::NeedsInteraction
    } else if v.current is Some {
        OverlayScreen::Showing
    } else {
        OverlayScreen::Empty
    }
}

/// The overlay page's state after one event.
pub open spec fn overlay_next<T>(v: OverlayView<T>, e: OverlayEvent<T>) -> OverlayView<T> {
    match e {
        OverlayEvent::SessionInitFailed => OverlayView { revoked: true, ..v },
        OverlayEvent::Poll { transactions, sound_enabled, primary_media, fallback_media } =>
            OverlayView {
            queue: transactions,
            sound_enabled: sound_enabled,
            primary_media: primary_media,
            fallback_media: Some(fallback_media),
            fallback_level: if primary_media == v.primary_media {
                v.fallback_level
            } else {
                0
            },
            ..v
        },
        OverlayEvent::PollError { message } => OverlayView {
            revoked: v.revoked || contains_seq(message, "SessionRevoked"@),
            ..v
        },
        OverlayEvent::Tick => if tick_step(v) == DisplayStep::LockFront {
            OverlayView { playing: true, ..v }
        } else {
            v
        },
        OverlayEvent::LockResolved { transaction, locked } => OverlayView {
            queue: if v.queue.len() > 0 {
                v.queue.drop_first()
            } else {
                v.queue
            },
            current: if locked {
                Some(transaction)
            } else {
                v.current
            },
            ..v
        },
        OverlayEvent::DisplayFinished => OverlayView { current: None, ..v },
        OverlayEvent::ReadyForNext => OverlayView { playing: false, ..v },
        OverlayEvent::AudioBlocked => OverlayView { interaction_required: true, ..v },
        OverlayEvent::UnlockAudio => OverlayView { interaction_required: false, ..v },
        OverlayEvent::AudioError => OverlayView {
            fallback_level: if v.fallback_level < 2 {
                v.fallback_level + 1
            } else {
                v.fallback_level
            },
            ..v
        },
    }
}

/// The overlay page's state after a sequence of events, in order.
pub open spec fn overlay_run<T>(v: OverlayView<T>, events: Seq<OverlayEvent<T>>) -> OverlayView<T>
    decreases events.len(),
{
    if events.len() == 0 {
        v
    } else {
        overlay_run(overlay_next(v, events[0]), events.drop_first())
    }
}

/// A fresh overlay page's state.
pub open spec fn overlay_initial<T>() -> OverlayView<T> {
    OverlayView {
        revoked: false,
        interaction_required: false,
        queue: Seq::empty(),
        playing: false,
        sound_enabled: true,
        primary_media: None,
        fallback_media: None,
        fallback_level: 0,
        current: None,
    }
}

/// The invariant of every overlay state: the fallback level is 0, 1 or 2,
/// and a donation is on screen only while the display loop is busy.
pub open spec fn overlay_wf<T>(v: OverlayView<T>) -> bool {
    &&& v.fallback_level <= 2
    &&& one_at_a_time(v)
}

impl<T> View for OverlayState<T> {
    type V = OverlayView<T>;

    closed spec fn view(&self) -> OverlayView<T> {
        OverlayView {
            revoked: self.revoked,
            interaction_required: self.interaction_required,
            queue: self.queue@,
            playing: self.playing,
            sound_enabled: self.sound_enabled,
            primary_media: opt_view(self.primary_media),
            fallback_media: opt_view(self.fallback_media),
            fallback_level: self.fallback_level as nat,
            current: self.current,
        }
    }
}

/// Whether two optional strings hold the same text.
fn opt_str_eq(a: &Option<String>, b: &Option<String>) -> (r: bool)
    ensures
        r == (opt_view(*a) == opt_view(*b)),
{
    match (a, b) {
        (Some(x), Some(y)) => str_eq(x.as_str(), y.as_str()),
        (None, None) => true,
        _ => false,
    }
}

impl<T> OverlayState<T> {
    /// The overlay's state holds its invariant: the fallback level is 0, 1
    /// or 2, and a donation is on screen only while the display loop is busy.
    pub open spec fn wf(self) -> bool {
        overlay_wf(self@)
    }

    /// Whether the display loop is busy with a donation.
    pub fn is_busy(&self) -> (b: bool)
        ensures
            b == self@.playing,
    {
        self.playing
    }

    /// A fresh overlay page: nothing queued or shown, sound on, no media yet.
    pub fn new() -> (s: OverlayState<T>)
        ensures
            s.wf(),
            s@ == overlay_initial::<T>(),
            !s@.revoked,
            !s@.interaction_required,
            s@.queue == Seq::<T>::empty(),
            !s@.playing,
            s@.sound_enabled,
            s@.primary_media is None,
            s@.fallback_media is None,
            s@.fallback_level == 0,
            s@.current is None,
    {
        OverlayState {
            revoked: false,
            interaction_required: false,
            queue: Vec::new(),
            playing: false,
            sound_enabled: true,
            primary_media: None,
            fallback_media: None,
            fallback_level: 0,
            current: None,
        }
    }

    /// The overlay page for an overlay token: none at all for an empty
    /// token, so the page registers no session, polls nothing and claims
    /// nothing; otherwise a fresh page.
    pub fn for_token(token: &str) -> (r: Option<OverlayState<T>>)
        ensures
            token@.len() == 0 <==> r is None,
            r matches Some(s) ==> s.wf() && s@ == overlay_initial::<T>(),
    {
        if to_chars(token).len() == 0 {
            None
        } else {
            Some(OverlayState::new())
        }
    }

    /// Registering the session failed: the overlay stops.
    pub fn session_init_failed(&mut self)
        requires
            old(self).wf(),
        ensures
            final(self)@ == overlay_next(old(self)@, OverlayEvent::SessionInitFailed),
            final(self).wf(),
            final(self)@ == (OverlayView { revoked: true, ..old(self)@ }),
    {
        self.revoked = true;
    }

    /// Whether the poll loop should ask the server again.
    pub fn should_poll(&self) -> (b: bool)
        ensures
            b == !self@.revoked,
    {
        !self.revoked
    }

    /// A poll answered with the paid donations, the sound setting and the
    /// streamer's media: the queue is replaced, the fallback level restarts
    /// when the streamer's media changed, and the fallback file is recorded.
    pub fn apply_poll(
        &mut self,
        transactions: Vec<T>,
        sound_enabled: bool,
        primary_media: Option<String>,
        fallback_media: String,
    )
        requires
            old(self).wf(),
        ensures
            final(self)@ == overlay_next(
                old(self)@,
                OverlayEvent::Poll {
                    transactions: transactions@,
                    sound_enabled,
                    primary_media: opt_view(primary_media),
                    fallback_media: fallback_media@,
                },
            ),
            final(self).wf(),
            final(self)@ == (OverlayView {
                queue: transactions@,
                sound_enabled: sound_enabled,
                primary_media: opt_view(primary_media),
                fallback_media: Some(fallback_media@),
                fallback_level: if opt_view(primary_media) == old(self)@.primary_media {
                    old(self)@.fallback_level
                } else {
                    0
                },
                ..old(self)@
            }),
    {
        self.sound_enabled = sound_enabled;
        self.queue = transactions;
        if !opt_str_eq(&self.primary_media, &primary_media) {
            self.primary_media = primary_media;
            self.fallback_level = 0;
        }
        self.fallback_media = Some(fallback_media);
    }

    /// A poll failed with `message`: when it says the session was revoked
    /// the overlay stops; returns whether the poll loop ends.
    pub fn apply_poll_error(&mut self, message: &str) -> (stop: bool)
        requires
            old(self).wf(),
        ensures
            final(self)@ == overlay_next(old(self)@, OverlayEvent::PollError { message: message@ }),
            final(self).wf(),
            stop == contains_seq(message@, "SessionRevoked"@),
            final(self)@ == (OverlayView { revoked: old(self)@.revoked || stop, ..old(self)@ }),
    {
        if contains(message, "SessionRevoked") {
            self.revoked = true;
            true
        } else {
            false
        }
    }

    /// One tick of the display loop: stop when revoked, wait while a
    /// donation is being shown or nothing is queued, otherwise start
    /// claiming the donation at the front of the queue.
    pub fn display_tick(&mut self) -> (step: DisplayStep)
        requires
            old(self).wf(),
        ensures
            step == tick_step(old(self)@),
            final(self)@ == overlay_next(old(self)@, OverlayEvent::Tick),
            final(self).wf(),
            old(self)@.revoked ==> step == DisplayStep::Stop && final(self)@ == old(self)@,
            !old(self)@.revoked && (old(self)@.playing || old(self)@.queue.len() == 0) ==> step
                == DisplayStep::Idle && final(self)@ == old(self)@,
            !old(self)@.revoked && !old(self)@.playing && old(self)@.queue.len() > 0 ==> step
                == DisplayStep::LockFront && final(self)@ == (OverlayView {
                playing: true,
                ..old(self)@
            }),
    {
        if self.revoked {
            DisplayStep::Stop
        } else if self.playing || self.queue.len() == 0 {
            DisplayStep::Idle
        } else {
            self.playing = true;
            DisplayStep::LockFront
        }
    }

    /// The donation at the front of the queue.
    pub fn front(&self) -> (r: Option<&T>)
        ensures
            self@.queue.len() == 0 ==> r is None,
            self@.queue.len() > 0 ==> r == Some(&self@.queue[0]),
    {
        if self.queue.len() == 0 {
            None
        } else {
            Some(&self.queue[0])
        }
    }

    /// The server answered the claim of `transaction`, started by the tick
    /// that made the display loop busy: the front of the queue is dropped
    /// either way; a claimed donation goes on screen.
    pub fn lock_resolved(&mut self, transaction: T, locked: bool) -> (o: LockOutcome)
        requires
            old(self).wf(),
            old(self)@.playing,
        ensures
            final(self)@ == overlay_next(old(self)@, OverlayEvent::LockResolved { transaction, locked }),
            final(self).wf(),
            final(self)@.queue == (if old(self)@.queue.len() > 0 {
                old(self)@.queue.drop_first()
            } else {
                old(self)@.queue
            }),
            locked ==> final(self)@.current == Some(transaction) && o == (LockOutcome::Show {
                play_sound: old(self)@.sound_enabled,
            }),
            !locked ==> final(self)@.current == old(self)@.current && o == LockOutcome::Skip,
            final(self)@ == (OverlayView {
                queue: final(self)@.queue,
                current: final(self)@.current,
                ..old(self)@
            }),
    {
        if self.queue.len() > 0 {
            self.queue.remove(0);
        }
        if locked {
            self.current = Some(transaction);
            LockOutcome::Show { play_sound: self.sound_enabled }
        } else {
            LockOutcome::Skip
        }
    }

    /// The donation's time on screen is over.
    pub fn display_finished(&mut self)
        requires
            old(self).wf(),
        ensures
            final(self)@ == overlay_next(old(self)@, OverlayEvent::DisplayFinished),
            final(self).wf(),
            final(self)@ == (OverlayView { current: None, ..old(self)@ }),
    {
        self.current = None;
    }

    /// The pause after a donation is over, and nothing is on screen: the
    /// next one may start.
    pub fn ready_for_next(&mut self)
        requires
            old(self).wf(),
            old(self)@.current is None,
        ensures
            final(self)@ == overlay_next(old(self)@, OverlayEvent::ReadyForNext),
            final(self).wf(),
            final(self)@ == (OverlayView { playing: false, ..old(self)@ }),
    {
        self.playing = false;
    }

    /// The browser refused to play audio without a user gesture.
    pub fn audio_blocked(&mut self)
        requires
            old(self).wf(),
        ensures
            final(self)@ == overlay_next(old(self)@, OverlayEvent::AudioBlocked),
            final(self).wf(),
            final(self)@ == (OverlayView { interaction_required: true, ..old(self)@ }),
    {
        self.interaction_required = true;
    }

    /// The user clicked to unlock audio.
    pub fn unlock_audio(&mut self)
        requires
            old(self).wf(),
        ensures
            final(self)@ == overlay_next(old(self)@, OverlayEvent::UnlockAudio),
            final(self).wf(),
            final(self)@ == (OverlayView { interaction_required: false, ..old(self)@ }),
    {
        self.interaction_required = false;
    }

    /// The current sound source failed to load: fall back one level, up to
    /// the built-in sound.
    pub fn audio_error(&mut self)
        requires
            old(self).wf(),
        ensures
            final(self)@ == overlay_next(old(self)@, OverlayEvent::AudioError),
            final(self).wf(),
            final(self)@ == (OverlayView {
                fallback_level: if old(self)@.fallback_level < 2 {
                    old(self)@.fallback_level + 1
                } else {
                    old(self)@.fallback_level
                },
                ..old(self)@
            }),
    {
        if self.fallback_level < 2 {
            self.fallback_level = self.fallback_level + 1;
        }
    }

    /// The sound source for the current fallback level.
    pub fn audio_source(&self) -> (s: String)
        ensures
            s@ == audio_source_for(
                self@.fallback_level,
                self@.primary_media,
                self@.fallback_media,
            ),
    {
        if self.fallback_level == 0 {
            if let Some(src) = &self.primary_media {
                return owned(src.as_str());
            }
        }
        if self.fallback_level <= 1 {
            if let Some(src) = &self.fallback_media {
                return owned(src.as_str());
            }
        }
        owned("/public/default_donate.mp3")
    }

    /// The donation on screen.
    pub fn current(&self) -> (r: Option<&T>)
        ensures
            r == match self@.current {
                Some(t) => Some(&t),
                None => None::<&T>,
            },
    {
        match &self.current {
            Some(t) => Some(t),
            None => None,
        }
    }

    /// What the overlay page shows.
    pub fn screen(&self) -> (s: OverlayScreen)
        ensures
            s == screen_of(self@),
            s == (if self@.revoked {
                OverlayScreen::Revoked
            } else if self@.interaction_required {
                OverlayScreen::NeedsInteraction
            } else if self@.current is Some {
                OverlayScreen::Showing
            } else {
                OverlayScreen::Empty
            }),
    {
        if self.revoked {
            OverlayScreen::Revoked
        } else if self.interaction_required {
            OverlayScreen::NeedsInteraction
        } else if self.current.is_some() {
            OverlayScreen::Showing
        } else {
            OverlayScreen::Empty
        }
    }
}

/// The server's refusal of a revoked session, whatever text it is wrapped
/// in on the way, stops an overlay that receives it.
pub proof fn law_revocation_reaches_overlay(message: Seq<char>, before: Seq<char>, after: Seq<char>)
    requires
        message == before + OverlayError::SessionRevoked.text() + after,
    ensures
        contains_seq(message, "SessionRevoked"@),
{
    assert(message.subrange(
        before.len() as int,
        (before.len() + "SessionRevoked"@.len()) as int,
    ) =~= "SessionRevoked"@);
    assert(occurs_at(message, "SessionRevoked"@, before.len() as int));
}

/// After `k` failures of the sound source from any level the level is
/// `min(level + k, 2)`: the sound moves to the fallback file and then to the
/// built-in sound, and never past it.
pub open spec fn level_after_errors(level: nat, k: nat) -> nat
    decreases k,
{
    if k == 0 {
        level
    } else {
        let next: nat = if level < 2 {
            level + 1
        } else {
            level
        };
        level_after_errors(next, (k - 1) as nat)
    }
}

/// Two failures from any level reach the built-in sound.
pub proof fn law_audio_fallback_reaches_default(
    level: nat,
    primary: Option<Seq<char>>,
    fallback: Option<Seq<char>>,
)
    requires
        level <= 2,
    ensures
        level_after_errors(level, 2) == 2,
        audio_source_for(level_after_errors(level, 2), primary, fallback) == default_sound_path(),
        level == 0 && primary is Some ==> audio_source_for(level, primary, fallback)
            == primary->0,
{
    reveal_with_fuel(level_after_errors, 3);
}

/// Once revoked, the overlay stays revoked whatever happens next: the
/// Session Revoked view is shown, the poll loop does not ask the server
/// again, and the display loop stops at its next tick, so no donation is
/// claimed.
pub proof fn law_revocation_is_final<T>(v: OverlayView<T>, events: Seq<OverlayEvent<T>>)
    requires
        v.revoked,
    ensures
        overlay_run(v, events).revoked,
        tick_step(overlay_run(v, events)) == DisplayStep::Stop,
        screen_of(overlay_run(v, events)) == OverlayScreen::Revoked,
    decreases events.len(),
{
    if events.len() > 0 {
        law_revocation_is_final(overlay_next(v, events[0]), events.drop_first());
    }
}

/// A failed session registration, or a poll refused with `SessionRevoked`
/// in its text, revokes the overlay for good.
pub proof fn law_refusal_revokes_for_good<T>(
    v: OverlayView<T>,
    e: OverlayEvent<T>,
    events: Seq<OverlayEvent<T>>,
)
    requires
        e is SessionInitFailed || (e matches OverlayEvent::PollError { message } && contains_seq(
            message,
            "SessionRevoked"@,
        )),
    ensures
        overlay_run(overlay_next(v, e), events).revoked,
        tick_step(overlay_run(overlay_next(v, e), events)) == DisplayStep::Stop,
        screen_of(overlay_run(overlay_next(v, e), events)) == OverlayScreen::Revoked,
{
    law_revocation_is_final(overlay_next(v, e), events);
}

/// A donation is on screen only while the display loop is busy with it.
pub open spec fn one_at_a_time<T>(v: OverlayView<T>) -> bool {
    v.current is Some ==> v.playing
}

/// The display loop's order of events: the server's answer to a claim
/// comes while the loop is busy (after the tick that started the claim),
/// and the loop becomes free only once nothing is on screen. Polls and
/// audio events may come at any time.
pub open spec fn follows_display_loop<T>(v: OverlayView<T>, events: Seq<OverlayEvent<T>>) -> bool
    decreases events.len(),
{
    events.len() == 0 || ({
        &&& events[0] is LockResolved ==> v.playing
        &&& events[0] is ReadyForNext ==> v.current is None
        &&& follows_display_loop(overlay_next(v, events[0]), events.drop_first())
    })
}

/// At every step of the run, at most one donation is on screen, and a tick
/// that claims the next donation finds nothing on screen.
pub open spec fn shows_one_at_a_time<T>(v: OverlayView<T>, events: Seq<OverlayEvent<T>>) -> bool
    decreases events.len(),
{
    &&& one_at_a_time(v)
    &&& events.len() > 0 ==> {
        &&& (events[0] is Tick && tick_step(v) == DisplayStep::LockFront ==> v.current is None)
        &&& shows_one_at_a_time(overlay_next(v, events[0]), events.drop_first())
    }
}

/// Following the display loop's order, from a state with nothing on screen
/// (or a donation on screen while the loop is busy), the overlay shows at
/// most one donation at a time, and the previous donation is gone before
/// the next one is claimed.
pub proof fn law_one_donation_at_a_time<T>(v: OverlayView<T>, events: Seq<OverlayEvent<T>>)
    requires
        one_at_a_time(v),
        follows_display_loop(v, events),
    ensures
        shows_one_at_a_time(v, events),
        one_at_a_time(overlay_run(v, events)),
    decreases events.len(),
{
    if events.len() > 0 {
        law_one_donation_at_a_time(overlay_next(v, events[0]), events.drop_first());
    }
}

/// One turn of the display loop on any overlay state that keeps the
/// invariant (every state the overlay's operations reach from `new` does)
/// and is free, with `tx` at the front of its queue: the tick starts a
/// claim of `tx`; whatever the server answers, `tx` leaves the queue; `tx` is on screen exactly when the claim succeeded;
/// after its time on screen and the pause, the overlay is free again with
/// nothing on screen and the rest of the queue waiting.
pub proof fn law_display_turn<T>(v: OverlayView<T>, tx: T, locked: bool)
    requires
        overlay_wf(v),
        !v.revoked,
        !v.playing,
        v.queue.len() > 0,
        v.queue[0] == tx,
    ensures
        ({
            let s1 = overlay_next(v, OverlayEvent::Tick);
            let s2 = overlay_next(s1, OverlayEvent::LockResolved { transaction: tx, locked });
            let s3 = if locked {
                overlay_next(s2, OverlayEvent::DisplayFinished)
            } else {
                s2
            };
            let s4 = overlay_next(s3, OverlayEvent::ReadyForNext);
            &&& tick_step(v) == DisplayStep::LockFront
            &&& s1.playing
            &&& s2.queue == v.queue.drop_first()
            &&& (s2.current == Some(tx) <==> locked)
            &&& (!locked ==> s2.current is None)
            &&& s3.current is None
            &&& s4 == (OverlayView { queue: v.queue.drop_first(), ..v })
        }),
{
    let s1 = overlay_next(v, OverlayEvent::Tick);
    let s2 = overlay_next(s1, OverlayEvent::LockResolved { transaction: tx, locked });
    let s3 = if locked {
        overlay_next(s2, OverlayEvent::DisplayFinished)
    } else {
        s2
    };
    let s4 = overlay_next(s3, OverlayEvent::ReadyForNext);
    assert(s4 =~= (OverlayView { queue: v.queue.drop_first(), ..v }));
}

/// Events in the display loop's order keep the overlay's invariant.
proof fn lemma_run_keeps_wf<T>(v: OverlayView<T>, events: Seq<OverlayEvent<T>>)
    requires
        overlay_wf(v),
        follows_display_loop(v, events),
    ensures
        overlay_wf(overlay_run(v, events)),
    decreases events.len(),
{
    if events.len() > 0 {
        lemma_run_keeps_wf(overlay_next(v, events[0]), events.drop_first());
    }
}

/// The display turn from any state the overlay reaches from a fresh page
/// through events in the display loop's order: when the loop is free and
/// `tx` is at the front of the queue, the tick claims `tx`, `tx` leaves the
/// queue whatever the answer, `tx` is on screen exactly when the claim
/// succeeded, and the turn ends with the overlay free, nothing on screen
/// and the rest of the queue waiting.
pub proof fn law_display_turn_from_start<T>(
    events: Seq<OverlayEvent<T>>,
    tx: T,
    locked: bool,
)
    requires
        follows_display_loop(overlay_initial::<T>(), events),
        !overlay_run(overlay_initial::<T>(), events).revoked,
        !overlay_run(overlay_initial::<T>(), events).playing,
        overlay_run(overlay_initial::<T>(), events).queue.len() > 0,
        overlay_run(overlay_initial::<T>(), events).queue[0] == tx,
    ensures
        ({
            let v = overlay_run(overlay_initial::<T>(), events);
            let s1 = overlay_next(v, OverlayEvent::Tick);
            let s2 = overlay_next(s1, OverlayEvent::LockResolved { transaction: tx, locked });
            let s3 = if locked {
                overlay_next(s2, OverlayEvent::DisplayFinished)
            } else {
                s2
            };
            let s4 = overlay_next(s3, OverlayEvent::ReadyForNext);
            &&& v.current is None
            &&& tick_step(v) == DisplayStep::LockFront
            &&& s1.playing
            &&& s2.queue == v.queue.drop_first()
            &&& (s2.current == Some(tx) <==> locked)
            &&& s3.current is None
            &&& s4 == (OverlayView { queue: v.queue.drop_first(), ..v })
        }),
{
    lemma_run_keeps_wf(overlay_initial::<T>(), events);
    law_display_turn(overlay_run(overlay_initial::<T>(), events), tx, locked);
}

/// The pause or sound switch after a click on its button: the opposite of
/// what it was.
pub fn toggled(on: bool) -> (r: bool)
    ensures
        r == !on,
{
    !on
}

/// A switch's value after `k` clicks on its button, starting from `start`:
/// each click dispatches the value `toggled` gives.
pub open spec fn switch_after_clicks(start: bool, k: nat) -> bool
    decreases k,
{
    if k == 0 {
        start
    } else {
        !switch_after_clicks(start, (k - 1) as nat)
    }
}

/// Clicking the pause (or sound) button `k` times from the streamer's
/// stored setting `start`: the `i`-th click dispatches `start` negated `i`
/// times, that is `start` when `i` is even and its opposite when odd, and
/// the switch ends at the value of the `k`-th.
pub proof fn law_switch_clicks(start: bool, k: nat)
    ensures
        forall|i: nat| i <= k ==> #[trigger] switch_after_clicks(start, i) == (start != (i % 2
            == 1)),
    decreases k,
{
    if k > 0 {
        law_switch_clicks(start, (k - 1) as nat);
        assert forall|i: nat| i <= k implies #[trigger] switch_after_clicks(start, i) == (start
            != (i % 2 == 1)) by {
            if i == k {
                assert(switch_after_clicks(start, k) == !switch_after_clicks(start, (k - 1) as nat));
            }
        }
    }
}

/// The pause button's label.
pub fn pause_button_label(paused: bool) -> (s: &'static str)
    ensures
        paused ==> s@ == "Overlay Paused"@,
        !paused ==> s@ == "Pause Overlay"@,
{
    proof {
        reveal_strlit("Overlay Paused");
        reveal_strlit("Pause Overlay");
    }
    if paused {
        "Overlay Paused"
    } else {
        "Pause Overlay"
    }
}

/// The sound button's label.
pub fn sound_button_label(enabled: bool) -> (s: &'static str)
    ensures
        enabled ==> s@ == "Sound ON"@,
        !enabled ==> s@ == "Sound OFF"@,
{
    proof {
        reveal_strlit("Sound ON");
        reveal_strlit("Sound OFF");
    }
    if enabled {
        "Sound ON"
    } else {
        "Sound OFF"
    }
}

} // verus!
