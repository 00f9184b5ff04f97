use palladium::json::Json;
use palladium::protocol::PacketType;
use palladium::session::{ready_payload, Output, RpcEvent, Session};

fn obj(fields: Vec<(&str, Json)>) -> Json {
    Json::Object(fields.into_iter().map(|(k, v)| (k.to_string(), v)).collect())
}

fn written(out: &Output) -> (PacketType, &Json) {
    match out {
        Output::Write(k, j) => (*k, j),
        _ => panic!("expected a packet"),
    }
}

fn handshaken() -> Session {
    let mut s = Session::new(4);
    let step = s.handle_packet(
        PacketType::Handshake,
        &obj(vec![("v", Json::uint(1)), ("client_id", Json::string("42"))]),
        13,
    );
    assert!(!step.stop);
    s
}

#[test]
fn handshake_answers_ready_and_opens_the_session() {
    let mut s = Session::new(1);
    let step = s.handle_packet(
        PacketType::Handshake,
        &obj(vec![("v", Json::string("1")), ("client_id", Json::string("42"))]),
        13,
    );
    assert!(!step.stop);
    assert!(s.handshook);
    assert_eq!(s.client_id, "42");
    assert_eq!(step.outputs.len(), 1);
    let (kind, payload) = written(&step.outputs[0]);
    assert_eq!(kind, PacketType::Frame);
    assert_eq!(payload, &ready_payload());
    let user = payload.get("data").unwrap().get("user").unwrap();
    assert_eq!(user.get("username"), Some(&Json::string("arrpc")));
}

#[test]
fn handshake_without_version_defaults_to_one() {
    let mut s = Session::new(1);
    let step = s.handle_packet(
        PacketType::Handshake,
        &obj(vec![("client_id", Json::string("42"))]),
        13,
    );
    assert!(!step.stop && s.handshook);
}

#[test]
fn handshake_with_another_version_is_closed() {
    let mut s = Session::new(1);
    let step = s.handle_packet(
        PacketType::Handshake,
        &obj(vec![("v", Json::uint(2)), ("client_id", Json::string("42"))]),
        13,
    );
    assert!(step.stop && !s.handshook);
    let (kind, payload) = written(&step.outputs[0]);
    assert_eq!(kind, PacketType::Close);
    assert_eq!(payload.get("code"), Some(&Json::integer(4004)));
    assert_eq!(payload.get("message"), Some(&Json::string("unsupported version")));
}

#[test]
fn handshake_without_client_id_is_closed() {
    let mut s = Session::new(1);
    let step = s.handle_packet(PacketType::Handshake, &obj(vec![("v", Json::uint(1))]), 13);
    assert!(step.stop);
    let (_, payload) = written(&step.outputs[0]);
    assert_eq!(payload.get("code"), Some(&Json::integer(4000)));
}

#[test]
fn a_second_handshake_is_refused() {
    let mut s = handshaken();
    let step = s.handle_packet(
        PacketType::Handshake,
        &obj(vec![("client_id", Json::string("other"))]),
        13,
    );
    assert!(step.stop);
    assert_eq!(s.client_id, "42");
    let (kind, payload) = written(&step.outputs[0]);
    assert_eq!(kind, PacketType::Close);
    assert_eq!(payload.get("code"), Some(&Json::integer(1003)));
}

#[test]
fn frames_before_the_handshake_are_refused() {
    let mut s = Session::new(1);
    let step = s.handle_packet(
        PacketType::Frame,
        &obj(vec![("cmd", Json::string("SET_ACTIVITY"))]),
        13,
    );
    assert!(step.stop);
    assert_eq!(step.outputs.len(), 1);
    let (_, payload) = written(&step.outputs[0]);
    assert_eq!(payload.get("message"), Some(&Json::string("need to handshake first")));
}

#[test]
fn ping_is_answered_with_pong_and_close_ends() {
    let mut s = Session::new(1);
    let p = obj(vec![("x", Json::uint(7))]);
    let step = s.handle_packet(PacketType::Ping, &p, 13);
    assert!(!step.stop);
    let (kind, payload) = written(&step.outputs[0]);
    assert_eq!(kind, PacketType::Pong);
    assert_eq!(payload, &p);
    assert!(s.handle_packet(PacketType::Pong, &p, 13).outputs.is_empty());
    assert!(s.handle_packet(PacketType::Close, &p, 13).stop);
}

#[test]
fn set_activity_forwards_the_translation_and_echoes() {
    let mut s = handshaken();
    let msg = obj(vec![
        ("cmd", Json::string("SET_ACTIVITY")),
        ("nonce", Json::string("n1")),
        (
            "args",
            obj(vec![
                ("pid", Json::uint(99)),
                ("activity", obj(vec![("details", Json::string("hi"))])),
            ]),
        ),
    ]);
    let step = s.handle_packet(PacketType::Frame, &msg, 13);
    assert!(!step.stop);
    assert_eq!(s.last_pid, Json::uint(99));
    assert_eq!(step.outputs.len(), 2);
    match &step.outputs[0] {
        Output::Bridge { activity, pid } => {
            assert_eq!(pid, &Json::uint(99));
            assert_eq!(activity.get("application_id"), Some(&Json::string("42")));
            assert_eq!(activity.get("details"), Some(&Json::string("hi")));
        }
        _ => panic!("expected a bridge update first"),
    }
    let (kind, reply) = written(&step.outputs[1]);
    assert_eq!(kind, PacketType::Frame);
    assert_eq!(reply.get("cmd"), Some(&Json::string("SET_ACTIVITY")));
    assert_eq!(reply.get("nonce"), Some(&Json::string("n1")));
    assert_eq!(reply.get("evt"), Some(&Json::Null));
    let echo = reply.get("data").unwrap();
    assert_eq!(echo.get("name"), Some(&Json::string("")));
    assert_eq!(echo.get("application_id"), Some(&Json::string("42")));
    assert_eq!(echo.get("type"), Some(&Json::integer(0)));
}

#[test]
fn clearing_the_activity_forwards_null() {
    let mut s = handshaken();
    let msg = obj(vec![
        ("cmd", Json::string("SET_ACTIVITY")),
        ("args", obj(vec![("pid", Json::uint(5))])),
    ]);
    let step = s.handle_packet(PacketType::Frame, &msg, 13);
    match &step.outputs[0] {
        Output::Bridge { activity, pid } => {
            assert_eq!(activity, &Json::Null);
            assert_eq!(pid, &Json::uint(5));
        }
        _ => panic!("expected a bridge update"),
    }
    let (_, reply) = written(&step.outputs[1]);
    assert_eq!(reply.get("data"), Some(&Json::Null));
    assert_eq!(reply.get("nonce"), Some(&Json::Null));
}

#[test]
fn invites_are_reported_and_empty_codes_refused() {
    let mut s = handshaken();
    let msg = obj(vec![
        ("cmd", Json::string("INVITE_BROWSER")),
        ("args", obj(vec![("code", Json::string("abc-1"))])),
    ]);
    let step = s.handle_packet(PacketType::Frame, &msg, 13);
    match &step.outputs[0] {
        Output::Emit(RpcEvent::Invite { code, is_invite }) => {
            assert_eq!(code, "abc-1");
            assert!(*is_invite);
        }
        _ => panic!("expected an invite event"),
    }
    let (_, reply) = written(&step.outputs[1]);
    assert_eq!(reply.get("data").unwrap().get("code"), Some(&Json::string("abc-1")));

    let msg = obj(vec![("cmd", Json::string("GUILD_TEMPLATE_BROWSER"))]);
    let step = s.handle_packet(PacketType::Frame, &msg, 13);
    assert_eq!(step.outputs.len(), 1);
    let (_, reply) = written(&step.outputs[0]);
    assert_eq!(reply.get("evt"), Some(&Json::string("ERROR")));
    let data = reply.get("data").unwrap();
    assert_eq!(data.get("code"), Some(&Json::integer(4017)));
    assert_eq!(data.get("message"), Some(&Json::string("Invalid guild template id: ")));
}

#[test]
fn connections_callback_is_an_error_and_unknown_commands_are_ignored() {
    let mut s = handshaken();
    let step = s.handle_packet(
        PacketType::Frame,
        &obj(vec![("cmd", Json::string("CONNECTIONS_CALLBACK"))]),
        13,
    );
    let (_, reply) = written(&step.outputs[0]);
    assert_eq!(reply.get("evt"), Some(&Json::string("ERROR")));
    assert_eq!(reply.get("data").unwrap().get("code"), Some(&Json::integer(1000)));
    let step = s.handle_packet(PacketType::Frame, &obj(vec![("cmd", Json::string("AUTHORIZE"))]), 13);
    assert!(step.outputs.is_empty() && !step.stop);
}

#[test]
fn deep_links_are_reported() {
    let mut s = handshaken();
    let args = obj(vec![("type", Json::string("CHANNEL"))]);
    let step = s.handle_packet(
        PacketType::Frame,
        &obj(vec![("cmd", Json::string("DEEP_LINK")), ("args", args.clone())]),
        13,
    );
    match &step.outputs[0] {
        Output::Emit(RpcEvent::DeepLink { args: a }) => assert_eq!(a, &args),
        _ => panic!("expected a deep link event"),
    }
}

#[test]
fn closing_clears_the_activity_only_after_a_handshake() {
    assert!(Session::new(1).on_close().is_none());
    let mut s = handshaken();
    s.handle_packet(
        PacketType::Frame,
        &obj(vec![
            ("cmd", Json::string("SET_ACTIVITY")),
            ("args", obj(vec![("pid", Json::uint(12))])),
        ]),
        13,
    );
    match s.on_close() {
        Some(Output::Bridge { activity, pid }) => {
            assert_eq!(activity, Json::Null);
            assert_eq!(pid, Json::uint(12));
        }
        _ => panic!("expected a clearing update"),
    }
}
