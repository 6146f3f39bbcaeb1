use souvlaki::platform::mpris::interfaces::PlayerInterface;
use souvlaki::platform::mpris::session::{Directive, Phase, WorkerExit};
use souvlaki::platform::mpris::{
    InternalEvent, Mpris, MprisConfig, MprisCover, MprisError, MprisPermissions, ServiceState,
    Value,
};
use souvlaki::{Double, MediaControlEvent, MediaMetadata, MediaPlayback, Repeat};

fn session() -> Mpris {
    Mpris::new(MprisConfig {
        dbus_name: "my_player".to_owned(),
        identity: "My Player".to_owned(),
        desktop_entry: "my-player".to_owned(),
    })
    .unwrap()
}

fn serving() -> Mpris {
    let mut session = session();
    assert!(matches!(session.attach(), Directive::Register));
    assert!(matches!(session.registered(Ok(())), Directive::SpawnWorker));
    session
}

#[test]
fn a_new_session_is_detached() {
    let session = session();
    assert_eq!(session.phase(), Phase::Detached);
    assert_eq!(session.config().identity, "My Player");
    assert_eq!(session.bus_name(), "org.mpris.MediaPlayer2.my_player");
}

#[test]
fn attach_registers_and_then_spawns() {
    let mut session = session();
    assert!(matches!(session.attach(), Directive::Register));
    assert_eq!(session.phase(), Phase::Starting);
    assert!(matches!(session.registered(Ok(())), Directive::SpawnWorker));
    assert_eq!(session.phase(), Phase::Serving);
}

#[test]
fn failed_registration_spawns_no_worker() {
    let mut session = session();
    assert!(matches!(session.attach(), Directive::Register));
    let directive = session.registered(Err("name already taken".to_owned()));
    assert!(matches!(
        directive,
        Directive::Done(Err(MprisError::DbusError(text))) if text == "name already taken"
    ));
    assert_eq!(session.phase(), Phase::Detached);
    assert!(matches!(session.detach(), Directive::Done(Ok(()))));
    assert!(matches!(
        session.set_shuffle(true),
        Err(MprisError::ThreadNotRunning)
    ));
    assert!(matches!(session.attach(), Directive::Register));
}

#[test]
fn detach_twice_joins_once() {
    let mut session = serving();
    assert!(matches!(session.detach(), Directive::StopWorker));
    assert_eq!(session.phase(), Phase::Draining { reattach: false });
    assert!(matches!(
        session.worker_stopped(WorkerExit::Finished),
        Directive::Done(Ok(()))
    ));
    assert_eq!(session.phase(), Phase::Detached);
    assert!(matches!(session.detach(), Directive::Done(Ok(()))));
    assert_eq!(session.phase(), Phase::Detached);
    assert!(matches!(session.detach(), Directive::Done(Ok(()))));
}

#[test]
fn detach_of_a_detached_session_is_a_no_op() {
    let mut session = session();
    assert!(matches!(session.detach(), Directive::Done(Ok(()))));
    assert_eq!(session.phase(), Phase::Detached);
}

#[test]
fn a_failed_worker_is_reported_at_detach_and_only_once() {
    let mut session = serving();
    assert!(matches!(session.detach(), Directive::StopWorker));
    assert!(matches!(
        session.worker_stopped(WorkerExit::Panicked),
        Directive::Done(Err(MprisError::ThreadPanicked))
    ));
    assert_eq!(session.phase(), Phase::Detached);
    assert!(matches!(session.detach(), Directive::Done(Ok(()))));
    let mut session = serving();
    assert!(matches!(session.detach(), Directive::StopWorker));
    assert!(matches!(
        session.worker_stopped(WorkerExit::Failed("connection lost".to_owned())),
        Directive::Done(Err(MprisError::DbusError(text))) if text == "connection lost"
    ));
    assert_eq!(session.phase(), Phase::Detached);
    assert!(matches!(session.detach(), Directive::Done(Ok(()))));
}

#[test]
fn attach_on_a_serving_session_detaches_first() {
    let mut session = serving();
    assert!(matches!(session.attach(), Directive::StopWorker));
    assert_eq!(session.phase(), Phase::Draining { reattach: true });
    assert!(matches!(
        session.worker_stopped(WorkerExit::Finished),
        Directive::Register
    ));
    assert_eq!(session.phase(), Phase::Starting);
    assert!(matches!(session.registered(Ok(())), Directive::SpawnWorker));
    assert_eq!(session.phase(), Phase::Serving);
}

#[test]
fn attach_ends_where_the_old_worker_had_failed() {
    let mut session = serving();
    assert!(matches!(session.attach(), Directive::StopWorker));
    assert!(matches!(
        session.worker_stopped(WorkerExit::Panicked),
        Directive::Done(Err(MprisError::ThreadPanicked))
    ));
    assert_eq!(session.phase(), Phase::Detached);
}

#[test]
fn reports_that_nothing_asked_for_change_nothing() {
    let mut session = session();
    assert!(matches!(
        session.worker_stopped(WorkerExit::Finished),
        Directive::Done(Err(MprisError::ThreadNotRunning))
    ));
    assert!(matches!(
        session.registered(Ok(())),
        Directive::Done(Err(MprisError::ThreadNotRunning))
    ));
    assert_eq!(session.phase(), Phase::Detached);
    let mut session = serving();
    assert!(matches!(
        session.registered(Ok(())),
        Directive::Done(Err(MprisError::ThreadNotRunning))
    ));
    assert!(matches!(
        session.worker_stopped(WorkerExit::Finished),
        Directive::Done(Err(MprisError::ThreadNotRunning))
    ));
    assert_eq!(session.phase(), Phase::Serving);
    let mut session = session_in_starting();
    assert!(matches!(
        session.attach(),
        Directive::Done(Err(MprisError::ThreadNotRunning))
    ));
    assert!(matches!(
        session.detach(),
        Directive::Done(Err(MprisError::ThreadNotRunning))
    ));
    assert_eq!(session.phase(), Phase::Starting);
}

fn session_in_starting() -> Mpris {
    let mut session = session();
    assert!(matches!(session.attach(), Directive::Register));
    session
}

#[test]
fn setters_before_attach_fail() {
    let session = session();
    assert!(matches!(
        session.set_playback(MediaPlayback::Stopped),
        Err(MprisError::ThreadNotRunning)
    ));
    assert!(matches!(
        session.set_metadata(MediaMetadata::default()),
        Err(MprisError::ThreadNotRunning)
    ));
    assert!(matches!(session.set_cover(None), Err(MprisError::ThreadNotRunning)));
    assert!(matches!(
        session.set_repeat(Repeat::Track),
        Err(MprisError::ThreadNotRunning)
    ));
    assert!(matches!(
        session.set_rate(Double::one()),
        Err(MprisError::ThreadNotRunning)
    ));
    assert!(matches!(session.set_shuffle(true), Err(MprisError::ThreadNotRunning)));
    assert!(matches!(
        session.set_volume(Double::one()),
        Err(MprisError::ThreadNotRunning)
    ));
    assert!(matches!(
        session.set_permissions(MprisPermissions::none()),
        Err(MprisError::ThreadNotRunning)
    ));
    assert!(matches!(
        session.set_fullscreen(true),
        Err(MprisError::ThreadNotRunning)
    ));
    assert!(matches!(
        session.send_internal_event(InternalEvent::Kill),
        Err(MprisError::ThreadNotRunning)
    ));
}

#[test]
fn each_setter_enqueues_its_one_command() {
    let session = serving();
    assert!(matches!(
        session.set_playback(MediaPlayback::Stopped),
        Ok(InternalEvent::SetPlayback(MediaPlayback::Stopped))
    ));
    assert!(matches!(
        session.set_metadata(MediaMetadata::default()),
        Ok(InternalEvent::SetMetadata(m)) if m.title.is_none()
    ));
    assert!(matches!(
        session.set_cover(Some(MprisCover::Url("u".to_owned()))),
        Ok(InternalEvent::SetCover(Some(MprisCover::Url(u)))) if u == "u"
    ));
    assert!(matches!(
        session.set_repeat(Repeat::Track),
        Ok(InternalEvent::SetLoopStatus(Repeat::Track))
    ));
    assert!(matches!(
        session.set_rate(Double::from_bits(7)),
        Ok(InternalEvent::SetRate(r)) if r.to_bits() == 7
    ));
    assert!(matches!(session.set_shuffle(true), Ok(InternalEvent::SetShuffle(true))));
    assert!(matches!(
        session.set_volume(Double::from_bits(9)),
        Ok(InternalEvent::SetVolume(v)) if v.to_bits() == 9
    ));
    assert!(matches!(
        session.set_permissions(MprisPermissions::none()),
        Ok(InternalEvent::SetPermissions(p)) if !p.can_quit
    ));
    assert!(matches!(
        session.set_fullscreen(true),
        Ok(InternalEvent::SetFullscreen(true))
    ));
}

#[test]
fn a_command_that_the_channel_refused_is_an_error() {
    assert!(matches!(Mpris::delivered(true), Ok(())));
    assert!(matches!(Mpris::delivered(false), Err(MprisError::ThreadPanicked)));
}

#[test]
fn attach_set_metadata_next_set_playback_detach() {
    let mut session = session();
    assert!(matches!(session.attach(), Directive::Register));
    assert!(matches!(session.registered(Ok(())), Directive::SpawnWorker));
    let mut worker = ServiceState::default();
    let mut upward: Vec<MediaControlEvent> = Vec::new();

    let mut metadata = MediaMetadata::default();
    metadata.title = Some("A".to_owned());
    let command = session.set_metadata(metadata).unwrap();
    assert!(Mpris::delivered(true).is_ok());
    let drained = worker.drain(vec![command]);
    assert!(!drained.shutdown);
    assert_eq!(drained.emissions.len(), 1);

    upward.push(PlayerInterface { state: &worker }.next());
    assert_eq!(upward, vec![MediaControlEvent::Next]);
    let published = PlayerInterface { state: &worker }.metadata();
    assert_eq!(published.get("xesam:title"), Some(&Value::Str("A".to_owned())));
    assert_eq!(PlayerInterface { state: &worker }.playback_status(), "Stopped");

    let command = session.set_playback(MediaPlayback::Playing { progress: None }).unwrap();
    let drained = worker.drain(vec![command]);
    assert_eq!(
        drained.emissions[0].player_changed.get("PlaybackStatus"),
        Some(&Value::Str("Playing".to_owned()))
    );
    assert_eq!(PlayerInterface { state: &worker }.playback_status(), "Playing");

    assert!(matches!(session.detach(), Directive::StopWorker));
    let drained = worker.drain(vec![InternalEvent::Kill]);
    assert!(drained.shutdown);
    assert!(drained.emissions.is_empty());
    assert!(matches!(
        session.worker_stopped(WorkerExit::Finished),
        Directive::Done(Ok(()))
    ));
    assert_eq!(session.phase(), Phase::Detached);
    assert_eq!(upward.len(), 1);
}
