//! The playback controller: the authoritative playback state, the commands
//! that mutate it, and the engine requests those commands issue.
//!
//! The engine is an unverified collaborator. Every request leaves the
//! controller as a plain [`EngineCommand`] value for the caller to perform,
//! and every answer the engine gives comes back in as a plain value: a seek's
//! synchronous accept or reject as a `bool`, a tick's position report as
//! milliseconds. A seek in flight is never waited on; the controller reads
//! the truth back on the next tick.

use vstd::prelude::*;

use crate::key_bind::{Key, KeyBind, Modifiers};
use crate::key_bind::{resolve, spec_resolve};

verus! {

/// The jump, in milliseconds, of the backward skip bound to a key.
pub const SEEK_BACKWARD_MS: i64 = -10000;

/// The jump, in milliseconds, of the forward skip bound to a key.
pub const SEEK_FORWARD_MS: i64 = 10000;

/// An abstract action a key chord can be bound to.
#[derive(Clone, Copy, Debug, Eq, PartialEq, Structural)]
pub enum Action {
    SeekBackward,
    SeekForward,
}

/// A playback command or engine notification for the controller to consume.
#[derive(Clone, Copy, Debug, Eq, PartialEq, Structural)]
pub enum Message {
    /// A key chord arrived from the windowing layer.
    Key(Modifiers, Key),
    TogglePause,
    ToggleLoop,
    /// The user dragged the seek control to an absolute position (ms).
    Seek(u64),
    /// A discrete jump by a signed offset (ms) from the current position.
    SeekRelative(i64),
    /// The user let go of the seek control.
    SeekRelease,
    EndOfStream,
    NewFrame,
}

impl Action {
    /// The signed jump, in milliseconds, of the relative seek this action
    /// issues.
    pub open spec fn spec_delta(self) -> i64 {
        match self {
            Action::SeekBackward => SEEK_BACKWARD_MS,
            Action::SeekForward => SEEK_FORWARD_MS,
        }
    }

    /// The playback command an action stands for.
    pub open spec fn spec_message(self) -> Message {
        Message::SeekRelative(self.spec_delta())
    }

    /// Maps the action to its playback command: each action stands for
    /// exactly one command.
    pub fn message(&self) -> (r: Message)
        ensures
            r == self.spec_message(),
    {
        match self {
            Action::SeekBackward => Message::SeekRelative(SEEK_BACKWARD_MS),
            Action::SeekForward => Message::SeekRelative(SEEK_FORWARD_MS),
        }
    }
}

/// A request for the engine, handed out by the controller for the caller to
/// perform. Seeks carry the accuracy trade-off: a drag favors responsiveness
/// (inaccurate), a finalizing or discrete seek favors frame-exact positioning
/// (accurate).
#[derive(Clone, Copy, Debug, Eq, PartialEq, Structural)]
pub enum EngineCommand {
    SetPaused(bool),
    SetLooping(bool),
    Seek { target_ms: u64, accurate: bool },
}

/// The engine rejected a seek request (out of range, or the stream is not
/// seekable). The controller reports it to the caller and keeps its mirrored
/// position unchanged; it never retries silently.
#[derive(Clone, Copy, Debug, Eq, PartialEq, Structural)]
pub struct SeekFailure;

/// The authoritative playback state, owned by the control thread.
#[derive(Clone, Copy, Debug, Eq, PartialEq, Structural)]
pub struct Controller {
    pub paused: bool,
    pub looping: bool,
    /// Local mirror of the engine position, refreshed on each tick unless a
    /// drag is in progress.
    pub position_ms: u64,
    /// Read from the engine once the media is loaded, immutable afterwards.
    pub duration_ms: u64,
    /// True while the user is moving the seek control; while true, engine
    /// position reports must not overwrite `position_ms`.
    pub dragging: bool,
}

impl Controller {
    /// The mirrored position never runs past the media's duration.
    pub open spec fn wf(self) -> bool {
        self.position_ms <= self.duration_ms
    }

    /// A controller for freshly loaded media: playing, not looping, at the
    /// start, with no drag in progress. Construction presumes a loaded
    /// engine; a load failure is fatal before any controller exists.
    pub fn new(duration_ms: u64) -> (r: Controller)
        ensures
            r == (Controller {
                paused: false,
                looping: false,
                position_ms: 0,
                duration_ms,
                dragging: false,
            }),
            r.wf(),
    {
        Controller { paused: false, looping: false, position_ms: 0, duration_ms, dragging: false }
    }

    /// The state after the pause toggle.
    pub open spec fn spec_toggle_pause(self) -> Controller {
        Controller { paused: !self.paused, ..self }
    }

    /// Flips the paused flag and asks the engine to mirror it.
    pub fn toggle_pause(&mut self) -> (cmd: EngineCommand)
        ensures
            *final(self) == old(self).spec_toggle_pause(),
            cmd == EngineCommand::SetPaused(!old(self).paused),
            old(self).wf() ==> final(self).wf(),
    {
        self.paused = !self.paused;
        EngineCommand::SetPaused(self.paused)
    }

    /// The state after the loop toggle.
    pub open spec fn spec_toggle_loop(self) -> Controller {
        Controller { looping: !self.looping, ..self }
    }

    /// Flips the looping flag and asks the engine to mirror it.
    pub fn toggle_loop(&mut self) -> (cmd: EngineCommand)
        ensures
            *final(self) == old(self).spec_toggle_loop(),
            cmd == EngineCommand::SetLooping(!old(self).looping),
            old(self).wf() ==> final(self).wf(),
    {
        self.looping = !self.looping;
        EngineCommand::SetLooping(self.looping)
    }

    /// Where a relative seek lands: the current position plus the signed
    /// delta, clamped into the range a position can represent. The engine, not
    /// the controller, decides whether the landing point is playable.
    pub open spec fn spec_relative_target(self, delta_ms: i64) -> u64 {
        let t = self.position_ms + delta_ms;
        if t < 0 {
            0
        } else if t > u64::MAX {
            u64::MAX
        } else {
            t as u64
        }
    }

    /// The engine request of an absolute (drag) seek: fast and inaccurate,
    /// favoring responsiveness while the user is still moving the control.
    pub open spec fn spec_absolute_request(target_ms: u64) -> EngineCommand {
        EngineCommand::Seek { target_ms, accurate: false }
    }

    /// The fast seek request a drag issues for the dragged-to position.
    pub fn absolute_seek_request(&self, target_ms: u64) -> (cmd: EngineCommand)
        ensures
            cmd == Controller::spec_absolute_request(target_ms),
    {
        EngineCommand::Seek { target_ms, accurate: false }
    }

    /// The state after an absolute (drag) seek whose engine request was
    /// answered with `accepted`. The drag is recorded either way; only an
    /// accepted seek adopts the target position and resumes playback.
    pub open spec fn spec_seek_absolute(self, target_ms: u64, accepted: bool) -> Controller {
        if accepted {
            Controller { dragging: true, position_ms: target_ms, paused: false, ..self }
        } else {
            Controller { dragging: true, ..self }
        }
    }

    /// An absolute seek, issued while the user drags the seek control.
    ///
    /// The caller performs the fast seek request (`absolute_seek_request`) on
    /// the engine and passes the engine's synchronous answer in as `accepted`.
    /// On acceptance the controller adopts the target as its position and
    /// resumes playback; a rejection surfaces as a [`SeekFailure`] and leaves
    /// position and pause exactly as they were, so the mirror never runs
    /// ahead of an engine that refused to move. The drag is recorded in both
    /// cases.
    pub fn seek_absolute(&mut self, target_ms: u64, accepted: bool) -> (r: Result<
        (),
        SeekFailure,
    >)
        ensures
            *final(self) == old(self).spec_seek_absolute(target_ms, accepted),
            r is Ok <==> accepted,
            old(self).wf() && (accepted ==> target_ms <= old(self).duration_ms)
                ==> final(self).wf(),
    {
        self.dragging = true;
        if accepted {
            self.position_ms = target_ms;
            self.paused = false;
            Ok(())
        } else {
            Err(SeekFailure)
        }
    }

    /// A discrete jump by `delta_ms` from the current position, used for
    /// key-bound skips: the accurate seek request for the landing point.
    /// The command changes no state — not the mirrored position, not the drag
    /// flag, not the pause flag (a jump during playback keeps playing, a jump
    /// while paused stays paused). The position only moves when a later tick
    /// reports where the engine really landed, and a rejection of the request
    /// is the performing caller's to report — there is no local state to
    /// mend.
    pub fn seek_relative(&self, delta_ms: i64) -> (cmd: EngineCommand)
        ensures
            cmd == (EngineCommand::Seek {
                target_ms: self.spec_relative_target(delta_ms),
                accurate: true,
            }),
    {
        let sum: i128 = self.position_ms as i128 + delta_ms as i128;
        let target_ms: u64 = if sum < 0 {
            0
        } else if sum > u64::MAX as i128 {
            u64::MAX
        } else {
            sum as u64
        };
        EngineCommand::Seek { target_ms, accurate: true }
    }

    /// The accurate seek request that finalizes a drag: to the last dragged
    /// position, trading the earlier fast seek for one precise seek.
    pub fn release_seek_request(&self) -> (cmd: EngineCommand)
        ensures
            cmd == (EngineCommand::Seek { target_ms: self.position_ms, accurate: true }),
    {
        EngineCommand::Seek { target_ms: self.position_ms, accurate: true }
    }

    /// The state after a drag release whose engine request was answered with
    /// `accepted`. The drag ends either way; only an accepted seek resumes
    /// playback.
    pub open spec fn spec_seek_release(self, accepted: bool) -> Controller {
        if accepted {
            Controller { dragging: false, paused: false, ..self }
        } else {
            Controller { dragging: false, ..self }
        }
    }

    /// Finalizes a drag: the caller performs the accurate seek request
    /// (`release_seek_request`) on the engine and passes the engine's answer
    /// in as `accepted`. The drag ends in both cases; on acceptance playback
    /// resumes, a rejection surfaces as a [`SeekFailure`] and leaves the
    /// pause flag as it was.
    pub fn seek_release(&mut self, accepted: bool) -> (r: Result<(), SeekFailure>)
        requires
            old(self).dragging,
        ensures
            *final(self) == old(self).spec_seek_release(accepted),
            r is Ok <==> accepted,
            old(self).wf() ==> final(self).wf(),
    {
        self.dragging = false;
        if accepted {
            self.paused = false;
            Ok(())
        } else {
            Err(SeekFailure)
        }
    }

    /// The state after one engine tick that reported `engine_position_ms`.
    /// A drag masks the report and forces a pause; otherwise the report
    /// becomes the mirrored position.
    pub open spec fn spec_on_engine_tick(self, engine_position_ms: u64) -> Controller {
        if self.dragging {
            Controller { paused: true, ..self }
        } else {
            Controller { position_ms: engine_position_ms, ..self }
        }
    }

    /// Consumes one engine tick (a new frame, with the engine's reported
    /// position). While a drag is in progress the report is ignored and the
    /// engine is asked to pause, so the display cannot race ahead of the
    /// user's drag; otherwise the report becomes the mirrored position and no
    /// request is issued.
    pub fn on_engine_tick(&mut self, engine_position_ms: u64) -> (cmd: Option<EngineCommand>)
        ensures
            *final(self) == old(self).spec_on_engine_tick(engine_position_ms),
            old(self).dragging ==> cmd == Some(EngineCommand::SetPaused(true)),
            !old(self).dragging ==> cmd is None,
            old(self).wf() && (old(self).dragging || engine_position_ms <= old(self).duration_ms)
                ==> final(self).wf(),
    {
        if self.dragging {
            self.paused = true;
            Some(EngineCommand::SetPaused(true))
        } else {
            self.position_ms = engine_position_ms;
            None
        }
    }

    /// End of stream is an observable notice only: the controller's state is
    /// untouched, and whether to auto-pause or restart a loop is the
    /// surrounding application's decision.
    pub fn on_end_of_stream(&self) -> (note: &'static str)
        ensures
            note@ == "end of stream"@,
    {
        "end of stream"
    }

    /// Resolves a chord against the bindings and, when it is bound, produces
    /// the engine request of the bound action's command; an unbound chord is
    /// a no-op. Every action today maps to a relative seek, which mutates no
    /// controller state.
    pub fn resolve_and_dispatch(
        &self,
        binds: &Vec<(KeyBind, Action)>,
        modifiers: Modifiers,
        key: &Key,
    ) -> (cmd: Option<EngineCommand>)
        ensures
            match spec_resolve(binds@, modifiers, *key) {
                Some(action) => cmd == Some(
                    (EngineCommand::Seek {
                        target_ms: self.spec_relative_target(action.spec_delta()),
                        accurate: true,
                    }),
                ),
                None => cmd is None,
            },
    {
        match resolve(binds, modifiers, key) {
            Some(action) => match action.message() {
                Message::SeekRelative(delta_ms) => Some(self.seek_relative(delta_ms)),
                _ => None,
            },
            None => None,
        }
    }
}

/// Toggling pause twice restores the state it started from — the paused flag
/// in particular.
pub proof fn lemma_toggle_pause_twice(s: Controller)
    ensures
        s.spec_toggle_pause().spec_toggle_pause() == s,
        s.spec_toggle_pause().spec_toggle_pause().paused == s.paused,
{
}

/// After an accepted absolute seek the controller is dragging at the target,
/// and the next engine tick leaves that position untouched: the forced pause
/// masks the engine's feedback while the drag lasts.
pub proof fn lemma_drag_masks_tick(s: Controller, target_ms: u64, engine_position_ms: u64)
    ensures
        s.spec_seek_absolute(target_ms, true).dragging,
        s.spec_seek_absolute(target_ms, true).position_ms == target_ms,
        s.spec_seek_absolute(target_ms, true).spec_on_engine_tick(engine_position_ms).position_ms
            == target_ms,
        s.spec_seek_absolute(target_ms, true).spec_on_engine_tick(engine_position_ms).paused,
{
}

/// Releasing a drag that an accepted absolute seek began — which is a legal
/// release, since the seek records the drag — leaves the controller not
/// dragging and playing, whatever state it started from and whatever the
/// engine answered the release's own seek (the accepted absolute seek had
/// already resumed playback).
pub proof fn lemma_release_after_drag(s: Controller, target_ms: u64, release_accepted: bool)
    ensures
        s.spec_seek_absolute(target_ms, true).dragging,
        s.spec_seek_absolute(target_ms, true).spec_seek_release(release_accepted).dragging
            == false,
        s.spec_seek_absolute(target_ms, true).spec_seek_release(release_accepted).paused == false,
{
}

/// Only an engine tick outside a drag moves the mirrored position, and then
/// only to the engine's own report; a tick during a drag leaves it exactly
/// where the drag put it. (Discrete jumps move no state at all: the relative
/// seek request reads the controller without mutating it.)
pub proof fn lemma_only_free_tick_moves_position(s: Controller, engine_position_ms: u64)
    ensures
        !s.dragging ==> s.spec_on_engine_tick(engine_position_ms).position_ms
            == engine_position_ms,
        s.dragging ==> s.spec_on_engine_tick(engine_position_ms).position_ms == s.position_ms,
{
}

} // verus!
