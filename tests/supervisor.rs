use pipe_relay::listener::AcceptError;
use pipe_relay::supervisor::{Supervisor, SupervisorAction, SupervisorPhase};

#[test]
fn accept_dial_spawn_accept() {
    let mut s = Supervisor::new();
    assert_eq!(s.next_action(), SupervisorAction::Accept);
    assert_eq!(s.on_accepted(Ok(())), SupervisorAction::Dial);
    assert_eq!(s.on_dialed(true), SupervisorAction::SpawnRelay);
    assert_eq!(s.next_action(), SupervisorAction::Accept);
}

#[test]
fn dial_failure_closes_only_the_client() {
    let mut s = Supervisor::new();
    s.on_accepted(Ok(()));
    assert_eq!(s.on_dialed(false), SupervisorAction::CloseClient);
    assert_eq!(s.phase(), SupervisorPhase::Accepting);
    assert_eq!(s.next_action(), SupervisorAction::Accept);
}

#[test]
fn listener_failure_shuts_down() {
    let mut s = Supervisor::new();
    assert_eq!(
        s.on_accepted(Err(AcceptError::Bind)),
        SupervisorAction::Shutdown(AcceptError::Bind)
    );
    assert_eq!(s.phase(), SupervisorPhase::ShutDown(AcceptError::Bind));
    let mut s = Supervisor::new();
    assert_eq!(
        s.on_accepted(Err(AcceptError::Connect)),
        SupervisorAction::Shutdown(AcceptError::Connect)
    );
}
