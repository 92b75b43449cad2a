use screenshare::protocol::RequestOutcome;
use screenshare::protocol::StreamInfo;
use screenshare::protocol::Value;
use screenshare::session::Phase;
use screenshare::session::PortalError;
use screenshare::session::PortalRequest;
use screenshare::session::PortalSession;
use screenshare::session::StreamDescriptor;
use screenshare::session::run_handshake;

fn granted_create(handle: &str) -> RequestOutcome {
    RequestOutcome {
        status: 0,
        payload: vec![(String::from("session_handle"), Value::Str(String::from(handle)))],
    }
}

fn granted_select() -> RequestOutcome {
    RequestOutcome { status: 0, payload: Vec::new() }
}

fn granted_start(node_id: u32) -> RequestOutcome {
    RequestOutcome {
        status: 0,
        payload: vec![(String::from("streams"), Value::Streams(vec![StreamInfo { node_id }]))],
    }
}

fn denied(status: u32) -> RequestOutcome {
    RequestOutcome { status, payload: Vec::new() }
}

#[test]
fn ordered_handshake_succeeds() {
    let mut s = PortalSession::new();
    let handle = s.create_session(&granted_create("/session/abc")).unwrap();
    assert_eq!(handle, "/session/abc");
    assert_eq!(s.phase, Phase::Created);
    s.select_sources(&granted_select()).unwrap();
    assert_eq!(s.phase, Phase::SourcesSelected);
    let node_id = s.start(&granted_start(42)).unwrap();
    assert_eq!(node_id, 42);
    assert_eq!(s.phase, Phase::Started);
    let desc = s.open_pipewire_remote(Some(7)).unwrap();
    assert_eq!(desc, StreamDescriptor { node_id: 42, fd: 7 });
    assert_eq!(s.phase, Phase::Opened);
}

#[test]
fn out_of_order_steps_are_rejected() {
    let mut s = PortalSession::new();
    assert_eq!(s.select_sources(&granted_select()), Err(PortalError::OutOfOrder));
    assert_eq!(s.start(&granted_start(42)), Err(PortalError::OutOfOrder));
    assert_eq!(s.open_pipewire_remote(Some(7)), Err(PortalError::OutOfOrder));
    // The rejected calls did not move the session along.
    assert_eq!(s.phase, Phase::Idle);
    assert!(s.create_session(&granted_create("/session/abc")).is_ok());
}

#[test]
fn denied_create_short_circuits() {
    let mut s = PortalSession::new();
    let (r, issued) = run_handshake(
        &mut s,
        &denied(2),
        &granted_select(),
        &granted_start(42),
        Some(7),
    );
    assert_eq!(r, Err(PortalError::Denied(2)));
    assert_eq!(issued, 1);
    assert_eq!(s.phase, Phase::Failed);
    // After the failure no later step is taken.
    assert_eq!(s.select_sources(&granted_select()), Err(PortalError::OutOfOrder));
}

#[test]
fn denied_select_short_circuits() {
    let mut s = PortalSession::new();
    let (r, issued) = run_handshake(
        &mut s,
        &granted_create("/session/abc"),
        &denied(1),
        &granted_start(42),
        Some(7),
    );
    assert_eq!(r, Err(PortalError::Denied(1)));
    assert_eq!(issued, 2);
    assert_eq!(s.phase, Phase::Failed);
}

#[test]
fn denied_start_short_circuits() {
    let mut s = PortalSession::new();
    let (r, issued) = run_handshake(
        &mut s,
        &granted_create("/session/abc"),
        &granted_select(),
        &denied(1),
        Some(7),
    );
    assert_eq!(r, Err(PortalError::Denied(1)));
    assert_eq!(issued, 3);
    assert_eq!(s.phase, Phase::Failed);
}

#[test]
fn rejected_descriptor_passing_is_a_resource_error() {
    let mut s = PortalSession::new();
    let (r, issued) = run_handshake(
        &mut s,
        &granted_create("/session/abc"),
        &granted_select(),
        &granted_start(42),
        None,
    );
    assert_eq!(r, Err(PortalError::Resource));
    assert_eq!(issued, 4);
    assert_eq!(s.phase, Phase::Failed);
}

#[test]
fn successful_handshake_issues_all_four_requests() {
    let mut s = PortalSession::new();
    let (r, issued) = run_handshake(
        &mut s,
        &granted_create("/session/abc"),
        &granted_select(),
        &granted_start(42),
        Some(7),
    );
    assert_eq!(r, Ok(StreamDescriptor { node_id: 42, fd: 7 }));
    assert_eq!(issued, 4);
    assert_eq!(s.phase, Phase::Opened);
    assert_eq!(s.session_handle.as_deref(), Some("/session/abc"));
    assert_eq!(s.node_id, Some(42));
}

#[test]
fn create_reply_without_handle_is_malformed() {
    let mut s = PortalSession::new();
    let r = s.create_session(&RequestOutcome { status: 0, payload: Vec::new() });
    assert_eq!(r, Err(PortalError::MalformedReply));
    assert_eq!(s.phase, Phase::Failed);
}

#[test]
fn start_reply_without_streams_is_malformed() {
    let mut s = PortalSession::new();
    s.create_session(&granted_create("/session/abc")).unwrap();
    s.select_sources(&granted_select()).unwrap();
    let empty = RequestOutcome {
        status: 0,
        payload: vec![(String::from("streams"), Value::Streams(Vec::new()))],
    };
    assert_eq!(s.start(&empty), Err(PortalError::MalformedReply));
    assert_eq!(s.phase, Phase::Failed);
}

#[test]
fn start_takes_the_first_announced_stream() {
    let mut s = PortalSession::new();
    s.create_session(&granted_create("/session/abc")).unwrap();
    s.select_sources(&granted_select()).unwrap();
    let two = RequestOutcome {
        status: 0,
        payload: vec![(
            String::from("streams"),
            Value::Streams(vec![StreamInfo { node_id: 9 }, StreamInfo { node_id: 10 }]),
        )],
    };
    assert_eq!(s.start(&two), Ok(9));
}

#[test]
fn close_is_issued_exactly_once() {
    let mut s = PortalSession::new();
    s.create_session(&granted_create("/session/abc")).unwrap();
    assert!(s.close());
    assert_eq!(s.phase, Phase::Closed);
    assert!(!s.close());
}

#[test]
fn close_without_a_session_issues_nothing() {
    let mut s = PortalSession::new();
    assert!(!s.close());
    assert_eq!(s.phase, Phase::Closed);
}

#[test]
fn close_after_failure_still_closes_a_created_session() {
    let mut s = PortalSession::new();
    s.create_session(&granted_create("/session/abc")).unwrap();
    assert_eq!(s.select_sources(&denied(1)), Err(PortalError::Denied(1)));
    assert_eq!(s.phase, Phase::Failed);
    // The portal assigned a session, so its owner still owes one Close.
    assert!(s.close());
    assert!(!s.close());
}

#[test]
fn request_builders_follow_the_handshake() {
    let mut s = PortalSession::new();

    match s.create_session_request(String::from("ht0"), String::from("sht0")) {
        Ok(PortalRequest::CreateSession { handle_token, session_handle_token }) => {
            assert_eq!(handle_token, "ht0");
            assert_eq!(session_handle_token, "sht0");
        }
        other => panic!("unexpected request: {:?}", other.is_ok()),
    }
    assert_eq!(
        s.select_sources_request(String::from("ht1")).err(),
        Some(PortalError::OutOfOrder)
    );

    s.create_session(&granted_create("/session/abc")).unwrap();
    match s.select_sources_request(String::from("ht1")) {
        Ok(PortalRequest::SelectSources { session_handle, handle_token }) => {
            assert_eq!(session_handle, "/session/abc");
            assert_eq!(handle_token, "ht1");
        }
        other => panic!("unexpected request: {:?}", other.is_ok()),
    }

    s.select_sources(&granted_select()).unwrap();
    match s.start_request(String::from("ht2")) {
        Ok(PortalRequest::Start { session_handle, parent_window, handle_token }) => {
            assert_eq!(session_handle, "/session/abc");
            assert_eq!(parent_window, "parent-window?");
            assert_eq!(handle_token, "ht2");
        }
        other => panic!("unexpected request: {:?}", other.is_ok()),
    }

    s.start(&granted_start(42)).unwrap();
    match s.open_pipewire_remote_request() {
        Ok(PortalRequest::OpenPipeWireRemote { session_handle }) => {
            assert_eq!(session_handle, "/session/abc");
        }
        other => panic!("unexpected request: {:?}", other.is_ok()),
    }

    match s.close_request() {
        Ok(PortalRequest::CloseSession { session_handle }) => {
            assert_eq!(session_handle, "/session/abc");
        }
        other => panic!("unexpected request: {:?}", other.is_ok()),
    }
}
