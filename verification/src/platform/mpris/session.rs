//! The handle that the application holds: the life of a session, from
//! attaching a worker to detaching it, decided here and carried out by the
//! code that owns the thread, the channel and the bus connection.
//!
//! Every call on the handle ends in a [`Directive`]. `Done` ends the
//! application's call with a result. Any other directive names the one
//! thing to do next, whose outcome is reported back with `registered` or
//! `worker_stopped`, which answer with the next directive.

use super::{InternalEvent, MprisConfig, MprisCover, MprisError, MprisPermissions};
use crate::metadata::MediaMetadata;
use crate::number::Double;
use crate::{MediaPlayback, Repeat};
use vstd::prelude::*;
use vstd::string::StringExecFns;

verus! {

/// Where a session is in its life.
#[derive(Clone, Copy, PartialEq, Eq, Debug, Structural)]
pub enum Phase {
    /// No worker exists.
    Detached,
    /// No worker exists yet: the connection is being made and the name claimed.
    Starting,
    /// A worker serves the bus and takes commands.
    Serving,
    /// The worker was told to shut down and is being joined. With
    /// `reattach`, a new attach follows once it has stopped.
    Draining { reattach: bool },
}

impl Phase {
    /// Whether a worker thread exists in this phase.
    pub open spec fn has_worker(&self) -> bool {
        *self is Serving || *self is Draining
    }
}

/// How a worker ended, as its join tells.
#[derive(Debug)]
pub enum WorkerExit {
    /// It returned in good order.
    Finished,
    /// It returned with an error of the bus; the text is the bus's own.
    Failed(String),
    /// It did not return: the thread panicked.
    Panicked,
}

/// What is to be done next for the call in progress.
#[derive(Debug)]
pub enum Directive {
    /// Nothing: the call is over, with this result.
    Done(Result<(), MprisError>),
    /// Send the order to shut down, whether or not the worker still
    /// listens, and join the worker. Report how it ended with `worker_stopped`.
    StopWorker,
    /// Connect to the session bus and claim the name that `bus_name` gives.
    /// Report the outcome with `registered`.
    Register,
    /// Start the worker on the connection that was made. The call is over
    /// and has succeeded.
    SpawnWorker,
}

/// The phase and the directive after a call of `attach`.
pub open spec fn after_attach(phase: Phase) -> (Phase, Directive) {
    match phase {
        Phase::Detached => (Phase::Starting, Directive::Register),
        Phase::Serving => (Phase::Draining { reattach: true }, Directive::StopWorker),
        _ => (phase, Directive::Done(Err(MprisError::ThreadNotRunning))),
    }
}

/// The phase and the directive after a call of `detach`.
pub open spec fn after_detach(phase: Phase) -> (Phase, Directive) {
    match phase {
        Phase::Detached => (Phase::Detached, Directive::Done(Ok(()))),
        Phase::Serving => (Phase::Draining { reattach: false }, Directive::StopWorker),
        _ => (phase, Directive::Done(Err(MprisError::ThreadNotRunning))),
    }
}

/// The phase and the directive after the worker has stopped.
pub open spec fn after_worker_stopped(phase: Phase, exit: WorkerExit) -> (Phase, Directive) {
    match phase {
        Phase::Draining { reattach } => match exit {
            WorkerExit::Finished => if reattach {
                (Phase::Starting, Directive::Register)
            } else {
                (Phase::Detached, Directive::Done(Ok(())))
            },
            WorkerExit::Failed(text) => (
                Phase::Detached,
                Directive::Done(Err(MprisError::DbusError(text))),
            ),
            WorkerExit::Panicked => (
                Phase::Detached,
                Directive::Done(Err(MprisError::ThreadPanicked)),
            ),
        },
        _ => (phase, Directive::Done(Err(MprisError::ThreadNotRunning))),
    }
}

/// The phase and the directive after the attempt to connect and claim the name.
pub open spec fn after_registered(phase: Phase, outcome: Result<(), String>) -> (Phase, Directive) {
    match phase {
        Phase::Starting => match outcome {
            Ok(_) => (Phase::Serving, Directive::SpawnWorker),
            Err(text) => (Phase::Detached, Directive::Done(Err(MprisError::DbusError(text)))),
        },
        _ => (phase, Directive::Done(Err(MprisError::ThreadNotRunning))),
    }
}

/// What a setter answers: the command to put on the channel while a worker
/// serves, and an error while none does.
pub open spec fn after_setter(phase: Phase, event: InternalEvent) -> Result<
    InternalEvent,
    MprisError,
> {
    if phase is Serving {
        Ok(event)
    } else {
        Err(MprisError::ThreadNotRunning)
    }
}

/// A handle to OS media controls.
#[derive(Debug)]
pub struct Mpris {
    phase: Phase,
    config: MprisConfig,
}

impl Mpris {
    /// The phase that the session is in.
    pub closed spec fn spec_phase(&self) -> Phase {
        self.phase
    }

    /// The configuration that the session was made with.
    pub closed spec fn spec_config(&self) -> MprisConfig {
        self.config
    }

    /// The well-known name of a session whose configured name is `dbus_name`.
    pub open spec fn spec_bus_name(dbus_name: Seq<char>) -> Seq<char> {
        "org.mpris.MediaPlayer2."@ + dbus_name
    }

    /// A detached session with the given configuration.
    pub fn new(config: MprisConfig) -> (made: Result<Mpris, MprisError>)
        ensures
            made is Ok,
            made->Ok_0.spec_phase() is Detached,
            made->Ok_0.spec_config() == config,
    {
        Ok(Mpris { phase: Phase::Detached, config })
    }

    /// The phase that the session is in.
    pub fn phase(&self) -> (phase: Phase)
        ensures
            phase == self.spec_phase(),
    {
        self.phase
    }

    /// The configuration that the session was made with.
    pub fn config(&self) -> (config: &MprisConfig)
        ensures
            *config == self.spec_config(),
    {
        &self.config
    }

    /// The well-known name under which the session is reachable on the bus.
    pub fn bus_name(&self) -> (name: String)
        ensures
            name@ == Mpris::spec_bus_name(self.spec_config().dbus_name@),
    {
        String::from_str("org.mpris.MediaPlayer2.").concat(self.config.dbus_name.as_str())
    }

    /// Begins to attach a worker. A session that serves first stops its
    /// worker; a detached one goes on to connect.
    pub fn attach(&mut self) -> (directive: Directive)
        ensures
            (final(self).spec_phase(), directive) == after_attach(old(self).spec_phase()),
            final(self).spec_config() == old(self).spec_config(),
    {
        match self.phase {
            Phase::Detached => {
                self.phase = Phase::Starting;
                Directive::Register
            },
            Phase::Serving => {
                self.phase = Phase::Draining { reattach: true };
                Directive::StopWorker
            },
            _ => Directive::Done(Err(MprisError::ThreadNotRunning)),
        }
    }

    /// Begins to detach the worker. On a detached session this is a no-op
    /// that succeeds.
    pub fn detach(&mut self) -> (directive: Directive)
        ensures
            (final(self).spec_phase(), directive) == after_detach(old(self).spec_phase()),
            final(self).spec_config() == old(self).spec_config(),
    {
        match self.phase {
            Phase::Detached => Directive::Done(Ok(())),
            Phase::Serving => {
                self.phase = Phase::Draining { reattach: false };
                Directive::StopWorker
            },
            _ => Directive::Done(Err(MprisError::ThreadNotRunning)),
        }
    }

    /// Takes the report that the worker has stopped, and how. A worker that
    /// failed or panicked ends the call with its error, also where an
    /// attach was to follow.
    pub fn worker_stopped(&mut self, exit: WorkerExit) -> (directive: Directive)
        ensures
            (final(self).spec_phase(), directive) == after_worker_stopped(
                old(self).spec_phase(),
                exit,
            ),
            final(self).spec_config() == old(self).spec_config(),
    {
        match self.phase {
            Phase::Draining { reattach } => match exit {
                WorkerExit::Finished => if reattach {
                    self.phase = Phase::Starting;
                    Directive::Register
                } else {
                    self.phase = Phase::Detached;
                    Directive::Done(Ok(()))
                },
                WorkerExit::Failed(text) => {
                    self.phase = Phase::Detached;
                    Directive::Done(Err(MprisError::DbusError(text)))
                },
                WorkerExit::Panicked => {
                    self.phase = Phase::Detached;
                    Directive::Done(Err(MprisError::ThreadPanicked))
                },
            },
            _ => Directive::Done(Err(MprisError::ThreadNotRunning)),
        }
    }

    /// Takes the outcome of connecting and claiming the name. Only after
    /// success is a worker to be started; a failure ends the call with the
    /// bus's error and leaves the session detached.
    pub fn registered(&mut self, outcome: Result<(), String>) -> (directive: Directive)
        ensures
            (final(self).spec_phase(), directive) == after_registered(
                old(self).spec_phase(),
                outcome,
            ),
            final(self).spec_config() == old(self).spec_config(),
    {
        match self.phase {
            Phase::Starting => match outcome {
                Ok(_) => {
                    self.phase = Phase::Serving;
                    Directive::SpawnWorker
                },
                Err(text) => {
                    self.phase = Phase::Detached;
                    Directive::Done(Err(MprisError::DbusError(text)))
                },
            },
            _ => Directive::Done(Err(MprisError::ThreadNotRunning)),
        }
    }

    /// Hands a command over for the channel: the command itself while a
    /// worker serves, and an error while none does.
    pub fn send_internal_event(&self, event: InternalEvent) -> (enqueue: Result<
        InternalEvent,
        MprisError,
    >)
        ensures
            enqueue == after_setter(self.spec_phase(), event),
    {
        match self.phase {
            Phase::Serving => Ok(event),
            _ => Err(MprisError::ThreadNotRunning),
        }
    }

    /// What a setter returns once its command was handed to the channel:
    /// success where the channel took it, and an error where the worker no
    /// longer listens.
    pub fn delivered(sent: bool) -> (result: Result<(), MprisError>)
        ensures
            result == if sent {
                Ok::<(), MprisError>(())
            } else {
                Err::<(), MprisError>(MprisError::ThreadPanicked)
            },
    {
        if sent {
            Ok(())
        } else {
            Err(MprisError::ThreadPanicked)
        }
    }

    /// Set the current playback status.
    pub fn set_playback(&self, playback: MediaPlayback) -> (enqueue: Result<
        InternalEvent,
        MprisError,
    >)
        ensures
            enqueue == after_setter(self.spec_phase(), InternalEvent::SetPlayback(playback)),
    {
        self.send_internal_event(InternalEvent::SetPlayback(playback))
    }

    /// Set the metadata of the current media item.
    pub fn set_metadata(&self, metadata: MediaMetadata) -> (enqueue: Result<
        InternalEvent,
        MprisError,
    >)
        ensures
            enqueue == after_setter(self.spec_phase(), InternalEvent::SetMetadata(metadata)),
    {
        self.send_internal_event(InternalEvent::SetMetadata(metadata))
    }

    /// Set the cover art of the current media item.
    pub fn set_cover(&self, cover: Option<MprisCover>) -> (enqueue: Result<
        InternalEvent,
        MprisError,
    >)
        ensures
            enqueue == after_setter(self.spec_phase(), InternalEvent::SetCover(cover)),
    {
        self.send_internal_event(InternalEvent::SetCover(cover))
    }

    /// Set the repeat/loop status.
    pub fn set_repeat(&self, repeat: Repeat) -> (enqueue: Result<InternalEvent, MprisError>)
        ensures
            enqueue == after_setter(self.spec_phase(), InternalEvent::SetLoopStatus(repeat)),
    {
        self.send_internal_event(InternalEvent::SetLoopStatus(repeat))
    }

    /// Set the playback rate.
    pub fn set_rate(&self, rate: Double) -> (enqueue: Result<InternalEvent, MprisError>)
        ensures
            enqueue == after_setter(self.spec_phase(), InternalEvent::SetRate(rate)),
    {
        self.send_internal_event(InternalEvent::SetRate(rate))
    }

    /// Set the shuffle status.
    pub fn set_shuffle(&self, shuffle: bool) -> (enqueue: Result<InternalEvent, MprisError>)
        ensures
            enqueue == after_setter(self.spec_phase(), InternalEvent::SetShuffle(shuffle)),
    {
        self.send_internal_event(InternalEvent::SetShuffle(shuffle))
    }

    /// Set the volume level.
    pub fn set_volume(&self, volume: Double) -> (enqueue: Result<InternalEvent, MprisError>)
        ensures
            enqueue == after_setter(self.spec_phase(), InternalEvent::SetVolume(volume)),
    {
        self.send_internal_event(InternalEvent::SetVolume(volume))
    }

    /// Set which actions the user can take.
    pub fn set_permissions(&self, permissions: MprisPermissions) -> (enqueue: Result<
        InternalEvent,
        MprisError,
    >)
        ensures
            enqueue == after_setter(self.spec_phase(), InternalEvent::SetPermissions(permissions)),
    {
        self.send_internal_event(InternalEvent::SetPermissions(permissions))
    }

    /// Set whether the player fills the screen.
    pub fn set_fullscreen(&self, fullscreen: bool) -> (enqueue: Result<InternalEvent, MprisError>)
        ensures
            enqueue == after_setter(self.spec_phase(), InternalEvent::SetFullscreen(fullscreen)),
    {
        self.send_internal_event(InternalEvent::SetFullscreen(fullscreen))
    }
}

/// Detaching is idempotent: however the worker ended, the detach that
/// follows a finished detach succeeds, leaves the session detached and
/// asks for no join.
pub proof fn lemma_detach_is_idempotent(phase: Phase, exit: WorkerExit)
    requires
        phase is Detached || phase is Serving,
    ensures
        ({
            let first = after_detach(phase);
            let settled = if first.1 is StopWorker {
                after_worker_stopped(first.0, exit).0
            } else {
                first.0
            };
            &&& settled is Detached
            &&& after_detach(settled) == (Phase::Detached, Directive::Done(Ok(())))
        }),
{
}

/// A failed attach leaves no worker: where the name cannot be claimed, no
/// worker is started, the call ends with the bus's error, and the session
/// is detached.
pub proof fn lemma_failed_attach_leaves_no_worker(text: String)
    ensures
        after_attach(Phase::Detached) == (Phase::Starting, Directive::Register),
        !Phase::Starting.has_worker(),
        after_registered(Phase::Starting, Err(text)) == (
            Phase::Detached,
            Directive::Done(Err(MprisError::DbusError(text))),
        ),
        !Phase::Detached.has_worker(),
{
}

/// Workers are started and stopped one for one: a worker is asked for only
/// on the way from starting to serving, asked to stop only on the way from
/// serving to draining, and a phase with a worker is left only by the
/// report that the worker has stopped.
pub proof fn lemma_one_worker_at_a_time(phase: Phase, exit: WorkerExit, outcome: Result<(), String>)
    ensures
        after_attach(phase).1 is StopWorker <==> phase is Serving,
        after_detach(phase).1 is StopWorker <==> phase is Serving,
        after_registered(phase, outcome).1 is SpawnWorker <==> phase is Starting && outcome is Ok,
        !(after_attach(phase).1 is SpawnWorker),
        !(after_detach(phase).1 is SpawnWorker),
        !(after_worker_stopped(phase, exit).1 is SpawnWorker),
        phase.has_worker() ==> after_attach(phase).0.has_worker(),
        phase.has_worker() ==> after_detach(phase).0.has_worker(),
        phase.has_worker() ==> after_registered(phase, outcome).0 == phase,
        !phase.has_worker() ==> !after_attach(phase).0.has_worker(),
        !phase.has_worker() ==> !after_detach(phase).0.has_worker(),
        !phase.has_worker() ==> after_worker_stopped(phase, exit).0 == phase,
        !phase.has_worker() ==> (after_registered(phase, outcome).0.has_worker()
            <==> after_registered(phase, outcome).1 is SpawnWorker),
{
}

} // verus!
