use vstd::prelude::*;
use crate::snapshot::{MediaSnapshot, SnapshotView, empty_view};

verus! {

/// The tag of a playback state; the only part that drives transitions.
#[derive(Clone, Copy, Debug, PartialEq, Eq, Structural)]
pub enum PlaybackStatus {
    Stopped,
    Paused,
    Playing,
}

/// What one poll of the media session reports: nothing, a pause, or a track
/// that is playing, with its metadata.
#[derive(Debug)]
pub enum PlaybackState {
    Stopped,
    Paused,
    Playing(MediaSnapshot),
}

/// A failure of the media session.
#[derive(Debug)]
pub enum MediaError {
    /// No usable session or metadata right now; not a fault.
    NoActiveSession,
    /// Any other failure of the OS media API; fatal.
    Other(String),
}

/// A failure of the presence connection. Both kinds are fatal.
#[derive(Debug)]
pub enum PresenceError {
    /// Publish or clear attempted without a live connection.
    NotConnected,
    /// The message could not be sent to the remote service.
    Transport(String),
}

/// What one tick observed, as the decision sees it.
pub ghost enum Observation {
    Stopped,
    Paused,
    Playing(SnapshotView),
    Benign,
    Fatal,
}

/// The observation carried by the result of one poll.
pub open spec fn observation_of(observed: Result<PlaybackState, MediaError>) -> Observation {
    match observed {
        Ok(PlaybackState::Stopped) => Observation::Stopped,
        Ok(PlaybackState::Paused) => Observation::Paused,
        Ok(PlaybackState::Playing(s)) => Observation::Playing(s@),
        Err(MediaError::NoActiveSession) => Observation::Benign,
        Err(MediaError::Other(_)) => Observation::Fatal,
    }
}

/// The state the loop keeps between ticks.
pub ghost struct LoopModel {
    /// The snapshot the presence display currently shows; empty when cleared.
    pub last_published: SnapshotView,
    /// The status seen by the last tick that observed one.
    pub last_status: PlaybackStatus,
}

impl LoopModel {
    /// Something is displayed only while the last status was `Playing`.
    pub open spec fn wf(self) -> bool {
        self.last_published != empty_view() ==> self.last_status == PlaybackStatus::Playing
    }
}

/// The model before anything has been observed: nothing shown, stopped.
pub open spec fn idle_model() -> LoopModel {
    LoopModel { last_published: empty_view(), last_status: PlaybackStatus::Stopped }
}

/// What the loop asks of the presence sink after a tick.
pub ghost enum ActionView {
    Nothing,
    Clear,
    Publish(SnapshotView),
    Halt,
}

/// The side effect decided by one tick.
#[derive(Debug)]
pub enum Action {
    /// Leave the display as it is.
    Nothing,
    /// Remove the presence display.
    Clear,
    /// Show this snapshot.
    Publish(MediaSnapshot),
    /// A fatal error: stop the loop, leaving the display as it is.
    Halt,
}

impl View for Action {
    type V = ActionView;

    open spec fn view(&self) -> ActionView {
        match self {
            Action::Nothing => ActionView::Nothing,
            Action::Clear => ActionView::Clear,
            Action::Publish(s) => ActionView::Publish(s@),
            Action::Halt => ActionView::Halt,
        }
    }
}

/// A stop or a pause clears the display on entry and resets what was shown;
/// seen again, it changes nothing.
pub open spec fn enter_idle(m: LoopModel, status: PlaybackStatus) -> LoopModel {
    if m.last_status != status {
        LoopModel { last_published: empty_view(), last_status: status }
    } else {
        m
    }
}

/// The model after one tick that observed `o`.
pub open spec fn next_model(m: LoopModel, o: Observation) -> LoopModel {
    match o {
        Observation::Stopped => enter_idle(m, PlaybackStatus::Stopped),
        Observation::Paused => enter_idle(m, PlaybackStatus::Paused),
        Observation::Playing(s) => LoopModel { last_published: s, last_status: PlaybackStatus::Playing },
        Observation::Benign => LoopModel { last_published: empty_view(), last_status: m.last_status },
        Observation::Fatal => m,
    }
}

/// The action of one tick that observed `o` in model `m`.
pub open spec fn action_of(m: LoopModel, o: Observation) -> ActionView {
    match o {
        Observation::Stopped => if m.last_status != PlaybackStatus::Stopped {
            ActionView::Clear
        } else {
            ActionView::Nothing
        },
        Observation::Paused => if m.last_status != PlaybackStatus::Paused {
            ActionView::Clear
        } else {
            ActionView::Nothing
        },
        Observation::Playing(s) => if s != m.last_published {
            ActionView::Publish(s)
        } else {
            ActionView::Nothing
        },
        Observation::Benign => ActionView::Clear,
        Observation::Fatal => ActionView::Halt,
    }
}

/// What follows a publish or clear: the loop goes on after a success, and
/// halts on any presence error, leaving the display as it was last set.
pub fn after_send(sent: &Result<(), PresenceError>) -> (r: Action)
    ensures
        r@ == (match sent {
            Ok(_) => ActionView::Nothing,
            Err(_) => ActionView::Halt,
        }),
{
    match sent {
        Ok(_) => Action::Nothing,
        Err(_) => Action::Halt,
    }
}

/// The state the synchronization loop owns: what is displayed, and the last
/// playback status seen.
#[derive(Debug)]
pub struct LoopState {
    last_published: MediaSnapshot,
    last_status: PlaybackStatus,
}

impl View for LoopState {
    type V = LoopModel;

    closed spec fn view(&self) -> LoopModel {
        LoopModel { last_published: self.last_published@, last_status: self.last_status }
    }
}

impl LoopState {
    /// Nothing displayed, nothing playing.
    pub fn new() -> (r: LoopState)
        ensures
            r@ == idle_model(),
            r@.wf(),
    {
        LoopState { last_published: MediaSnapshot::empty(), last_status: PlaybackStatus::Stopped }
    }

    /// The state after the startup poll, and what to do with it: a snapshot
    /// read at startup is published at once and counts as playing; a failed
    /// startup poll starts from the idle state.
    pub fn start(initial: Result<MediaSnapshot, MediaError>) -> (r: (LoopState, Action))
        ensures
            r.0@.wf(),
            match initial {
                Ok(s) => r.0@ == (LoopModel {
                    last_published: s@,
                    last_status: PlaybackStatus::Playing,
                }) && r.1@ == ActionView::Publish(s@),
                Err(_) => r.0@ == idle_model() && r.1@ == ActionView::Nothing,
            },
    {
        match initial {
            Ok(s) => {
                let shown = s.duplicate();
                (LoopState { last_published: shown, last_status: PlaybackStatus::Playing }, Action::Publish(s))
            },
            Err(_) => (LoopState::new(), Action::Nothing),
        }
    }

    /// The snapshot the display currently shows.
    pub fn last_published(&self) -> (r: &MediaSnapshot)
        ensures
            r@ == self@.last_published,
    {
        &self.last_published
    }

    /// The last playback status observed.
    pub fn last_status(&self) -> (r: PlaybackStatus)
        ensures
            r == self@.last_status,
    {
        self.last_status
    }

    /// Clears on entry to `status` (stopped or paused); nothing when already there.
    fn enter_idle(&mut self, status: PlaybackStatus) -> (r: Action)
        ensures
            final(self)@ == enter_idle(old(self)@, status),
            r@ == (if old(self)@.last_status != status {
                ActionView::Clear
            } else {
                ActionView::Nothing
            }),
    {
        if self.last_status != status {
            self.last_published = MediaSnapshot::empty();
            self.last_status = status;
            Action::Clear
        } else {
            Action::Nothing
        }
    }

    /// Decides one tick from what the poll of the media session returned:
    /// updates the kept state and says what the presence sink must do.
    pub fn tick(&mut self, observed: Result<PlaybackState, MediaError>) -> (r: Action)
        requires
            old(self)@.wf(),
        ensures
            final(self)@ == next_model(old(self)@, observation_of(observed)),
            r@ == action_of(old(self)@, observation_of(observed)),
            final(self)@.wf(),
    {
        match observed {
            Ok(PlaybackState::Stopped) => self.enter_idle(PlaybackStatus::Stopped),
            Ok(PlaybackState::Paused) => self.enter_idle(PlaybackStatus::Paused),
            Ok(PlaybackState::Playing(s)) => {
                self.last_status = PlaybackStatus::Playing;
                if s.same_as(&self.last_published) {
                    Action::Nothing
                } else {
                    self.last_published = s.duplicate();
                    Action::Publish(s)
                }
            },
            Err(MediaError::NoActiveSession) => {
                self.last_published = MediaSnapshot::empty();
                Action::Clear
            },
            Err(MediaError::Other(_)) => Action::Halt,
        }
    }
}

} // verus!
