use symproxy::{
    check_bind, new_staging_id, publish_arguments, startup_scopes, CacheConfig, ErrorKind, ListenAddress,
    PublishAction, PublishEvent, PublishPhase, Publisher, TeeAction, TeeEvent, TeeStreamer, UpstreamDescriptor,
};

#[test]
fn tee_writes_then_forwards_then_closes() {
    let mut t = TeeStreamer::new(4);
    match t.handle(TeeEvent::Chunk(b"DA".to_vec())) {
        TeeAction::Write(w) => assert_eq!(w, b"DA".to_vec()),
        other => panic!("expected a write, got {:?}", other),
    }
    assert_eq!(t.written_len(), 0);
    match t.handle(TeeEvent::Written) {
        TeeAction::Forward(f) => assert_eq!(f, b"DA".to_vec()),
        other => panic!("expected a forward, got {:?}", other),
    }
    assert_eq!(t.written_len(), 2);
    assert!(matches!(t.handle(TeeEvent::Forwarded), TeeAction::ReadNext));
    assert!(matches!(t.handle(TeeEvent::Chunk(b"TA".to_vec())), TeeAction::Write(_)));
    assert!(matches!(t.handle(TeeEvent::Written), TeeAction::Forward(_)));
    assert!(matches!(t.handle(TeeEvent::Forwarded), TeeAction::ReadNext));
    assert_eq!(t.written_len(), 4);
    assert!(matches!(t.handle(TeeEvent::StreamEnded), TeeAction::Close));
}

#[test]
fn tee_short_stream_is_not_closed() {
    let mut t = TeeStreamer::new(4);
    t.handle(TeeEvent::Chunk(b"DAT".to_vec()));
    t.handle(TeeEvent::Written);
    t.handle(TeeEvent::Forwarded);
    match t.handle(TeeEvent::StreamEnded) {
        TeeAction::Abort(e) => assert_eq!(e.kind, ErrorKind::Staging),
        other => panic!("expected an abort, got {:?}", other),
    }
}

#[test]
fn tee_long_stream_is_refused() {
    let mut t = TeeStreamer::new(2);
    assert!(matches!(t.handle(TeeEvent::Chunk(b"DATA".to_vec())), TeeAction::Abort(_)));
    assert_eq!(t.written_len(), 0);
}

#[test]
fn tee_failure_aborts() {
    let mut t = TeeStreamer::new(4);
    t.handle(TeeEvent::Chunk(b"DATA".to_vec()));
    match t.handle(TeeEvent::Failed { cause: "disk full".to_string() }) {
        TeeAction::Abort(e) => assert_eq!(e.response_body(), "failed to stage chunk: disk full"),
        other => panic!("expected an abort, got {:?}", other),
    }
}

#[test]
fn tee_empty_body_closes_at_once() {
    let mut t = TeeStreamer::new(0);
    assert!(matches!(t.handle(TeeEvent::StreamEnded), TeeAction::Close));
}

#[test]
fn tee_forward_before_write_is_refused() {
    let mut t = TeeStreamer::new(4);
    t.handle(TeeEvent::Chunk(b"DATA".to_vec()));
    assert!(matches!(t.handle(TeeEvent::Forwarded), TeeAction::Abort(_)));
}

#[test]
fn staging_ids_have_uuid_shape_and_differ() {
    let a = new_staging_id();
    let b = new_staging_id();
    assert_eq!(a.len(), 36);
    assert!(a.chars().all(|c| c.is_ascii_hexdigit() && !c.is_ascii_uppercase() || c == '-'));
    assert_ne!(a, b);
}

#[test]
fn publish_arguments_have_fixed_shape() {
    let args = publish_arguments("contoso", "/tmp/x", "id1");
    assert_eq!(
        args,
        vec!["publish", "-overrideAadPromptBehavior", "NoPrompt", "-a", "-s", "contoso", "-d", "/tmp/x", "-n", "id1"]
    );
}

#[test]
fn publication_removes_staging_after_success() {
    let cache = CacheConfig { publisher_path: "symbol.exe".to_string(), organization: "contoso".to_string() };
    let (mut p, a) = Publisher::start(&cache, "/tmp/x", "id1");
    match a {
        PublishAction::RunTool { program, args } => {
            assert_eq!(program, "symbol.exe");
            assert_eq!(args[7], "/tmp/x");
            assert_eq!(args[9], "id1");
        },
        other => panic!("expected the tool, got {:?}", other),
    }
    assert!(matches!(p.handle(PublishEvent::ToolExited { success: true }), PublishAction::RemoveStaging));
    assert!(matches!(p.handle(PublishEvent::Removed), PublishAction::Finished(Ok(()))));
    assert_eq!(p.phase, PublishPhase::Done);
}

#[test]
fn publication_removes_staging_after_failure() {
    let cache = CacheConfig { publisher_path: "symbol.exe".to_string(), organization: "contoso".to_string() };
    let (mut p, _) = Publisher::start(&cache, "/tmp/x", "id1");
    assert!(matches!(p.handle(PublishEvent::ToolNotStarted { cause: "missing".to_string() }), PublishAction::RemoveStaging));
    match p.handle(PublishEvent::Removed) {
        PublishAction::Finished(Err(e)) => assert_eq!(e.kind, ErrorKind::Publish),
        other => panic!("expected a failure, got {:?}", other),
    }
}

#[test]
fn publication_reports_removal_failure() {
    let cache = CacheConfig { publisher_path: "symbol.exe".to_string(), organization: "contoso".to_string() };
    let (mut p, _) = Publisher::start(&cache, "/tmp/x", "id1");
    p.handle(PublishEvent::ToolExited { success: true });
    match p.handle(PublishEvent::RemoveFailed { cause: "busy".to_string() }) {
        PublishAction::Finished(Err(e)) => assert_eq!(e.kind, ErrorKind::Staging),
        other => panic!("expected a failure, got {:?}", other),
    }
}

fn authed() -> Vec<UpstreamDescriptor> {
    vec![
        UpstreamDescriptor::explicit("https://public.example.com/", None).unwrap(),
        UpstreamDescriptor::explicit("https://private.example.com/", Some("api://sym/.default".to_string())).unwrap(),
    ]
}

#[test]
fn routable_bind_with_auth_is_refused() {
    let addr = ListenAddress::V4 { octets: [10, 0, 0, 1], port: 5000 };
    let e = check_bind(&authed(), false, &addr).unwrap_err();
    assert_eq!(e.kind, ErrorKind::Misconfiguration);
    assert!(check_bind(&authed(), true, &addr).is_ok());
    assert!(check_bind(&authed(), false, &ListenAddress::default_address()).is_ok());
    let public = vec![UpstreamDescriptor::explicit("https://public.example.com/", None).unwrap()];
    assert!(check_bind(&public, false, &addr).is_ok());
}

#[test]
fn loopback_addresses() {
    assert!(ListenAddress::V4 { octets: [127, 8, 0, 1], port: 1 }.is_loopback());
    assert!(!ListenAddress::V4 { octets: [0, 0, 0, 0], port: 1 }.is_loopback());
    assert!(ListenAddress::V6 { segments: [0, 0, 0, 0, 0, 0, 0, 1], port: 1 }.is_loopback());
    assert!(!ListenAddress::V6 { segments: [0, 0, 0, 0, 0, 0, 1, 1], port: 1 }.is_loopback());
    let addr = ListenAddress::V6 { segments: [0xfe80, 0, 0, 0, 0, 0, 0, 1], port: 5000 };
    assert!(check_bind(&authed(), false, &addr).is_err());
}

#[test]
fn startup_scopes_are_the_configured_ones() {
    assert_eq!(startup_scopes(&authed()), vec!["api://sym/.default".to_string()]);
    assert!(startup_scopes(&Vec::new()).is_empty());
}
