use sandhole_benchmark::connector::{
    auth_hash, check_server_key, ConnectAction, ConnectEvent, ConnectPhase, Connector, HashAlg,
};
use sandhole_benchmark::error::TunnelError;
use sandhole_benchmark::retry::retry_delay_ms;
use sandhole_benchmark::session::{ControlMsg, ForwardAction, ForwardEvent, ForwardPhase, ForwardSession};
use sandhole_benchmark::supervisor::{Supervisor, SupervisorAction, SupervisorEvent, SupervisorPhase};

fn registered_session() -> ForwardSession {
    let mut s = ForwardSession::new();
    assert_eq!(s.step(ForwardEvent::Begin), ForwardAction::OpenChannel);
    assert_eq!(s.step(ForwardEvent::ChannelOpened), ForwardAction::RequestForward);
    assert!(!s.is_registered());
    assert_eq!(s.step(ForwardEvent::ForwardGranted), ForwardAction::Wait);
    assert!(s.is_registered());
    s
}

fn sleep_of(action: SupervisorAction) -> u64 {
    match action {
        SupervisorAction::Sleep(d) => d,
        other => panic!("expected a retry delay, got {other:?}"),
    }
}

#[test]
fn data_then_exit_status_writes_and_exits() {
    let mut s = registered_session();
    let action = s.step(ForwardEvent::Received(ControlMsg::Data(b"hello".to_vec())));
    assert_eq!(action, ForwardAction::WriteStdout(b"hello".to_vec()));
    assert_eq!(s.step(ForwardEvent::Written), ForwardAction::Wait);
    assert_eq!(s.step(ForwardEvent::Received(ControlMsg::ExitStatus(0))), ForwardAction::SendEof);
    assert_eq!(s.step(ForwardEvent::EofSent), ForwardAction::Exited(0));
    assert_eq!(s.phase, ForwardPhase::Exited(0));
}

#[test]
fn stderr_data_goes_to_standard_error() {
    let mut s = registered_session();
    let action = s.step(ForwardEvent::Received(ControlMsg::ExtendedData(b"oops".to_vec(), 1)));
    assert_eq!(action, ForwardAction::WriteStderr(b"oops".to_vec()));
}

#[test]
fn acknowledgements_are_skipped_and_close_exits_with_zero() {
    let mut s = registered_session();
    assert_eq!(s.step(ForwardEvent::Received(ControlMsg::Success)), ForwardAction::Wait);
    assert_eq!(s.step(ForwardEvent::Received(ControlMsg::Close)), ForwardAction::Exited(0));
}

#[test]
fn exit_status_is_passed_on() {
    let mut s = registered_session();
    assert_eq!(s.step(ForwardEvent::Received(ControlMsg::ExitStatus(7))), ForwardAction::SendEof);
    assert_eq!(s.step(ForwardEvent::EofSent), ForwardAction::Exited(7));
}

#[test]
fn unknown_message_is_a_protocol_violation_then_close_and_retry() {
    let mut sup = Supervisor::new();
    assert_eq!(sup.step(SupervisorEvent::Start), SupervisorAction::Connect);
    assert_eq!(sup.step(SupervisorEvent::Connected), SupervisorAction::Forward);
    let mut s = registered_session();
    assert_eq!(sup.step(SupervisorEvent::Registered), SupervisorAction::KeepForwarding);
    let action = s.step(ForwardEvent::Received(ControlMsg::Other));
    assert_eq!(action, ForwardAction::Fail(TunnelError::ProtocolViolation));
    assert_eq!(s.phase, ForwardPhase::Failed(TunnelError::ProtocolViolation));
    assert_eq!(sup.step(SupervisorEvent::SessionEnded), SupervisorAction::Close);
    assert_eq!(sup.step(SupervisorEvent::Closed), SupervisorAction::Connect);
    assert_eq!(sup.phase, SupervisorPhase::Connecting);
}

#[test]
fn unknown_extended_stream_is_a_protocol_violation() {
    let mut s = registered_session();
    let action = s.step(ForwardEvent::Received(ControlMsg::ExtendedData(b"x".to_vec(), 2)));
    assert_eq!(action, ForwardAction::Fail(TunnelError::ProtocolViolation));
}

#[test]
fn channel_end_and_output_failures() {
    let mut s = registered_session();
    assert_eq!(s.step(ForwardEvent::ChannelEnded), ForwardAction::Fail(TunnelError::ChannelEnded));
    let mut s = registered_session();
    s.step(ForwardEvent::Received(ControlMsg::Data(b"a".to_vec())));
    assert_eq!(s.step(ForwardEvent::StepFailed), ForwardAction::Fail(TunnelError::IoFailed));
    let mut s = registered_session();
    s.step(ForwardEvent::Received(ControlMsg::ExitStatus(3)));
    assert_eq!(s.step(ForwardEvent::StepFailed), ForwardAction::Fail(TunnelError::IoFailed));
}

#[test]
fn refused_forward_fails_the_session() {
    let mut s = ForwardSession::new();
    s.step(ForwardEvent::Begin);
    s.step(ForwardEvent::ChannelOpened);
    assert_eq!(s.step(ForwardEvent::StepFailed), ForwardAction::Fail(TunnelError::ForwardFailed));
    assert!(!s.is_registered());
    let mut s = ForwardSession::new();
    s.step(ForwardEvent::Begin);
    assert_eq!(s.step(ForwardEvent::StepFailed), ForwardAction::Fail(TunnelError::ForwardFailed));
}

#[test]
fn two_failures_then_success() {
    let mut sup = Supervisor::new();
    let mut connects = 0;
    let mut delays = Vec::new();
    let mut outcomes = vec![false, false, true].into_iter();
    let mut action = sup.step(SupervisorEvent::Start);
    loop {
        match action {
            SupervisorAction::Connect => {
                connects += 1;
                let event = if outcomes.next().unwrap() {
                    SupervisorEvent::Connected
                } else {
                    SupervisorEvent::ConnectFailed(TunnelError::ConnectFailed)
                };
                action = sup.step(event);
            }
            SupervisorAction::Sleep(d) => {
                delays.push(d);
                action = sup.step(SupervisorEvent::Slept);
            }
            SupervisorAction::Forward => {
                action = sup.step(SupervisorEvent::Registered);
            }
            SupervisorAction::KeepForwarding => break,
            other => panic!("unexpected {other:?}"),
        }
    }
    assert_eq!(connects, 3);
    assert_eq!(delays.len(), 2);
    assert!(delays[0] < delays[1]);
    assert!((1000..=2000).contains(&delays[0]));
    assert!((2000..=4000).contains(&delays[1]));
    assert_eq!(sup.phase, SupervisorPhase::Forwarding);
    assert_eq!(sup.failures, 0);
}

#[test]
fn delays_grow_to_the_cap_and_reset_after_registration() {
    let mut sup = Supervisor::new();
    sup.step(SupervisorEvent::Start);
    let mut last = 0;
    for k in 1..=8u64 {
        let d = sleep_of(sup.step(SupervisorEvent::ConnectFailed(TunnelError::AuthFailed)));
        assert_eq!(sup.failures, k);
        let base = std::cmp::min(1000u64 << (k - 1), 20000);
        assert!(d >= base && d <= 2 * base, "delay {d} after {k} failures");
        if base < 20000 {
            assert!(d >= last);
        }
        last = d;
        assert_eq!(sup.step(SupervisorEvent::Slept), SupervisorAction::Connect);
    }
    sup.step(SupervisorEvent::Connected);
    sup.step(SupervisorEvent::Registered);
    assert_eq!(sup.failures, 0);
    sup.step(SupervisorEvent::SessionEnded);
    sup.step(SupervisorEvent::Closed);
    let d = sleep_of(sup.step(SupervisorEvent::ConnectFailed(TunnelError::ConnectFailed)));
    assert!((1000..=2000).contains(&d));
}

#[test]
fn failed_registration_closes_then_backs_off() {
    let mut sup = Supervisor::new();
    sup.step(SupervisorEvent::Start);
    sup.step(SupervisorEvent::Connected);
    assert_eq!(sup.step(SupervisorEvent::SessionEnded), SupervisorAction::Close);
    assert_eq!(sup.failures, 1);
    let d = sleep_of(sup.step(SupervisorEvent::Closed));
    assert!((1000..=2000).contains(&d));
    assert_eq!(sup.step(SupervisorEvent::Slept), SupervisorAction::Connect);
}

#[test]
fn session_end_after_registration_reconnects_at_once() {
    let mut sup = Supervisor::new();
    sup.step(SupervisorEvent::Start);
    sup.step(SupervisorEvent::Connected);
    sup.step(SupervisorEvent::Registered);
    assert_eq!(sup.step(SupervisorEvent::SessionEnded), SupervisorAction::Close);
    assert_eq!(sup.step(SupervisorEvent::Closed), SupervisorAction::Connect);
    assert_eq!(sup.failures, 0);
}

#[test]
fn events_out_of_place_are_ignored() {
    let mut sup = Supervisor::new();
    assert_eq!(sup.step(SupervisorEvent::Slept), SupervisorAction::Ignore);
    assert_eq!(sup.phase, SupervisorPhase::Idle);
}

#[test]
fn retry_delay_bounds() {
    let d = retry_delay_ms(1);
    assert!((1000..=2000).contains(&d));
    let d = retry_delay_ms(3);
    assert!((4000..=8000).contains(&d));
    let d = retry_delay_ms(40);
    assert!((20000..=40000).contains(&d));
}

#[test]
fn connector_success_path() {
    let mut c = Connector::new();
    assert_eq!(c.step(ConnectEvent::Begin), ConnectAction::OpenSocket);
    assert_eq!(c.step(ConnectEvent::SocketOpened), ConnectAction::Handshake);
    assert_eq!(c.step(ConnectEvent::HandshakeDone), ConnectAction::QueryHash);
    assert_eq!(
        c.step(ConnectEvent::HashQueried(Some(Some(HashAlg::Sha512)))),
        ConnectAction::Authenticate(HashAlg::Sha512)
    );
    assert_eq!(c.step(ConnectEvent::Authenticated(true)), ConnectAction::Ready);
    assert_eq!(c.phase, ConnectPhase::Established);
}

#[test]
fn connector_falls_back_to_sha256() {
    let mut c = Connector::new();
    c.step(ConnectEvent::Begin);
    c.step(ConnectEvent::SocketOpened);
    c.step(ConnectEvent::HandshakeDone);
    assert_eq!(c.step(ConnectEvent::HashQueried(Some(None))), ConnectAction::Authenticate(HashAlg::Sha256));
    assert_eq!(auth_hash(None), HashAlg::Sha256);
}

#[test]
fn connector_failures() {
    let mut c = Connector::new();
    c.step(ConnectEvent::Begin);
    c.step(ConnectEvent::SocketOpened);
    c.step(ConnectEvent::HandshakeDone);
    c.step(ConnectEvent::HashQueried(None));
    assert_eq!(c.step(ConnectEvent::Authenticated(false)), ConnectAction::Fail(TunnelError::AuthFailed));
    let mut c = Connector::new();
    c.step(ConnectEvent::Begin);
    assert_eq!(c.step(ConnectEvent::StepFailed), ConnectAction::Fail(TunnelError::ConnectFailed));
    assert_eq!(c.phase, ConnectPhase::Failed(TunnelError::ConnectFailed));
}

#[test]
fn host_key_check() {
    let fp = "SHA256:abcdef".to_string();
    assert!(check_server_key(&None, &fp));
    assert!(check_server_key(&Some(fp.clone()), &fp));
    assert!(!check_server_key(&Some("SHA256:abcdeg".to_string()), &fp));
}

#[test]
fn error_messages_are_distinct() {
    let all = [
        TunnelError::ConnectFailed,
        TunnelError::AuthFailed,
        TunnelError::ForwardFailed,
        TunnelError::ProtocolViolation,
        TunnelError::ChannelEnded,
        TunnelError::IoFailed,
    ];
    for (i, a) in all.iter().enumerate() {
        for b in &all[i + 1..] {
            assert_ne!(a.message(), b.message());
        }
    }
}

#[test]
fn out_of_order_events_before_the_grant_fail_the_forward() {
    let mut s = ForwardSession::new();
    assert_eq!(s.step(ForwardEvent::Written), ForwardAction::Fail(TunnelError::ForwardFailed));
    assert!(!s.is_registered());
    assert_eq!(s.step(ForwardEvent::ForwardGranted), ForwardAction::Fail(TunnelError::ForwardFailed));
    assert!(!s.is_registered());
    let mut s = ForwardSession::new();
    s.step(ForwardEvent::Begin);
    s.step(ForwardEvent::ChannelOpened);
    assert_eq!(s.step(ForwardEvent::ChannelEnded), ForwardAction::Fail(TunnelError::ForwardFailed));
    assert!(!s.is_registered());
}

#[test]
fn ended_sessions_stay_ended() {
    let mut s = registered_session();
    s.step(ForwardEvent::Received(ControlMsg::Close));
    assert_eq!(s.step(ForwardEvent::Written), ForwardAction::Exited(0));
    let mut s = registered_session();
    s.step(ForwardEvent::Received(ControlMsg::Other));
    assert_eq!(s.step(ForwardEvent::Begin), ForwardAction::Fail(TunnelError::ProtocolViolation));
    assert!(s.is_registered());
}

#[test]
fn retry_delay_at_the_largest_count() {
    let d = retry_delay_ms(u64::MAX);
    assert!((20000..=40000).contains(&d));
    let d = retry_delay_ms(6);
    assert!((20000..=40000).contains(&d));
    let d = retry_delay_ms(5);
    assert!((16000..=32000).contains(&d));
}
