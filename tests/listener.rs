use pipe_relay::listener::{
    AcceptError, AcceptStep, ListenerPhase, NamedPipeServerManager, PipeMode, PipeOptions,
};

#[test]
fn new_uses_message_mode() {
    let m = NamedPipeServerManager::new(String::from(r"\\.\pipe\docker"));
    assert_eq!(m.name(), r"\\.\pipe\docker");
    assert_eq!(m.options().pipe_mode, PipeMode::Message);
    assert!(!m.options().first_pipe_instance);
    assert_eq!(m.phase(), ListenerPhase::Idle);
}

#[test]
fn with_options_keeps_options() {
    let opts = PipeOptions::new().with_first_pipe_instance(true);
    assert_eq!(opts.pipe_mode, PipeMode::Byte);
    let m = NamedPipeServerManager::with_options(String::from("P"), opts);
    assert_eq!(m.name(), "P");
    assert_eq!(m.options(), opts);
}

#[test]
fn accept_cycle_creates_then_waits() {
    let mut m = NamedPipeServerManager::new(String::from("P"));
    assert_eq!(m.begin_accept(), AcceptStep::CreateHandle);
    assert_eq!(m.on_created(true), AcceptStep::WaitForClient);
    assert_eq!(m.phase(), ListenerPhase::Listening);
    assert_eq!(m.on_connected(true), AcceptStep::Connected);
    assert_eq!(m.phase(), ListenerPhase::Idle);
}

#[test]
fn listener_serves_a_second_client() {
    let mut m = NamedPipeServerManager::new(String::from("P"));
    for _ in 0..2 {
        assert_eq!(m.begin_accept(), AcceptStep::CreateHandle);
        assert_eq!(m.on_created(true), AcceptStep::WaitForClient);
        assert_eq!(m.on_connected(true), AcceptStep::Connected);
    }
}

#[test]
fn bind_failure() {
    let mut m = NamedPipeServerManager::new(String::from("P"));
    m.begin_accept();
    assert_eq!(m.on_created(false), AcceptStep::Failed(AcceptError::Bind));
    assert_eq!(m.phase(), ListenerPhase::Idle);
}

#[test]
fn connect_failure() {
    let mut m = NamedPipeServerManager::new(String::from("P"));
    m.begin_accept();
    m.on_created(true);
    assert_eq!(m.on_connected(false), AcceptStep::Failed(AcceptError::Connect));
    assert_eq!(m.begin_accept(), AcceptStep::CreateHandle);
}
