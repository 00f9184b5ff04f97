//! The per-connection state machine of the arRPC IPC server: what each
//! incoming packet does to the session, and what is written, forwarded to
//! the bridge, or reported to the app in answer.

use vstd::prelude::*;

use crate::activity::{translate_activity_at, translated};
use crate::json::{
    group_json_view, group_json_wf, insert_field, int_json, json_wf, lemma_json_wf_unfold,
    lemma_view_fields, obj_insert, view_fields, Json, JsonV,
};
use crate::protocol::{PacketType, CLOSE_UNSUPPORTED, INVALID_CLIENTID, INVALID_VERSION};
use crate::text::{parse_i64, parse_i64_spec, push_str, str_eq};

verus! {

broadcast use group_json_view;

/// Something an RPC client asked of the Discord window.
pub enum RpcEvent {
    /// Open an invite (`is_invite`) or a guild template by its code.
    Invite { code: String, is_invite: bool },
    DeepLink { args: Json },
}

pub enum RpcEventV {
    Invite { code: Seq<char>, is_invite: bool },
    DeepLink { args: JsonV },
}

impl View for RpcEvent {
    type V = RpcEventV;

    open spec fn view(&self) -> RpcEventV {
        match self {
            RpcEvent::Invite { code, is_invite } => RpcEventV::Invite {
                code: code@,
                is_invite: *is_invite,
            },
            RpcEvent::DeepLink { args } => RpcEventV::DeepLink { args: args@ },
        }
    }
}

/// One effect of handling a packet, to be carried out in order.
pub enum Output {
    /// Write a packet to the client.
    Write(PacketType, Json),
    /// Forward an activity for this session to the bridge (null clears it).
    Bridge { activity: Json, pid: Json },
    /// Report a request to the app.
    Emit(RpcEvent),
}

pub enum OutputV {
    Write(PacketType, JsonV),
    Bridge { activity: JsonV, pid: JsonV },
    Emit(RpcEventV),
}

impl View for Output {
    type V = OutputV;

    open spec fn view(&self) -> OutputV {
        match self {
            Output::Write(k, j) => OutputV::Write(*k, j@),
            Output::Bridge { activity, pid } => OutputV::Bridge { activity: activity@, pid: pid@ },
            Output::Emit(e) => OutputV::Emit(e@),
        }
    }
}

pub open spec fn view_outputs(s: Seq<Output>) -> Seq<OutputV> {
    s.map_values(|o: Output| o@)
}

/// What handling one packet produced: the effects, and whether the
/// connection ends after them.
pub struct Step {
    pub outputs: Vec<Output>,
    pub stop: bool,
}

/// The state of one IPC connection.
pub struct Session {
    pub socket_id: u64,
    pub client_id: String,
    pub last_pid: Json,
    pub handshook: bool,
}

pub struct SessionV {
    pub socket_id: u64,
    pub client_id: Seq<char>,
    pub last_pid: JsonV,
    pub handshook: bool,
}

impl View for Session {
    type V = SessionV;

    open spec fn view(&self) -> SessionV {
        SessionV {
            socket_id: self.socket_id,
            client_id: self.client_id@,
            last_pid: self.last_pid@,
            handshook: self.handshook,
        }
    }
}

/// `{"code": code, "message": message}`, the payload of a close packet.
pub open spec fn close_payload(code: int, message: Seq<char>) -> JsonV {
    JsonV::Object(
        obj_insert(obj_insert(Seq::empty(), "code"@, int_json(code)), "message"@, JsonV::Str(message)),
    )
}

/// A reply frame: `{"cmd", "data", "evt": evt, "nonce"}`.
pub open spec fn reply_payload(cmd: Seq<char>, data: JsonV, evt: JsonV, nonce: JsonV) -> JsonV {
    JsonV::Object(
        obj_insert(
            obj_insert(
                obj_insert(obj_insert(Seq::empty(), "cmd"@, JsonV::Str(cmd)), "data"@, data),
                "evt"@,
                evt,
            ),
            "nonce"@,
            nonce,
        ),
    )
}

/// The READY dispatch sent after a handshake. It names arRPC's stand-in
/// user, never the account logged in to Discord.
pub open spec fn ready_payload_spec() -> JsonV {
    let config = obj_insert(
        obj_insert(
            obj_insert(Seq::empty(), "cdn_host"@, JsonV::Str("cdn.discordapp.com"@)),
            "api_endpoint"@,
            JsonV::Str("//discord.com/api"@),
        ),
        "environment"@,
        JsonV::Str("production"@),
    );
    let user = obj_insert(
        obj_insert(
            obj_insert(
                obj_insert(
                    obj_insert(
                        obj_insert(
                            obj_insert(
                                obj_insert(
                                    obj_insert(
                                        Seq::empty(),
                                        "id"@,
                                        JsonV::Str("1045800378228281345"@),
                                    ),
                                    "username"@,
                                    JsonV::Str("arrpc"@),
                                ),
                                "discriminator"@,
                                JsonV::Str("0"@),
                            ),
                            "global_name"@,
                            JsonV::Str("arRPC"@),
                        ),
                        "avatar"@,
                        JsonV::Str("cfefa4d9839fb4bdf030f91c2a13e95c"@),
                    ),
                    "avatar_decoration_data"@,
                    JsonV::Null,
                ),
                "bot"@,
                JsonV::Bool(false),
            ),
            "flags"@,
            int_json(0),
        ),
        "premium_type"@,
        int_json(0),
    );
    let data = obj_insert(
        obj_insert(obj_insert(Seq::empty(), "v"@, int_json(1)), "config"@, JsonV::Object(config)),
        "user"@,
        JsonV::Object(user),
    );
    JsonV::Object(
        obj_insert(
            obj_insert(
                obj_insert(
                    obj_insert(Seq::empty(), "cmd"@, JsonV::Str("DISPATCH"@)),
                    "data"@,
                    JsonV::Object(data),
                ),
                "evt"@,
                JsonV::Str("READY"@),
            ),
            "nonce"@,
            JsonV::Null,
        ),
    )
}

/// The protocol version a handshake asks for: `v` as an integer, or as a
/// string that parses as one; 1 when there is no usable `v`.
pub open spec fn handshake_version(payload: JsonV) -> int {
    match payload.get("v"@) {
        None => 1,
        Some(v) => match v.as_i64() {
            Some(i) => i,
            None => match v.as_str() {
                Some(t) => match parse_i64_spec(t) {
                    Some(i) => i,
                    None => 1,
                },
                None => 1,
            },
        },
    }
}

/// The activity echoed back to the client: the activity with `name` blank,
/// `application_id` set to the client id and `type` 0, when it is an object.
pub open spec fn echoed_activity(activity: JsonV, client_id: Seq<char>) -> JsonV {
    match activity {
        JsonV::Object(f) => JsonV::Object(
            obj_insert(
                obj_insert(
                    obj_insert(f, "name"@, JsonV::Str(Seq::empty())),
                    "application_id"@,
                    JsonV::Str(client_id),
                ),
                "type"@,
                int_json(0),
            ),
        ),
        _ => activity,
    }
}

/// The state after a command frame, and its effects.
pub open spec fn command_step(s: SessionV, msg: JsonV, now_digits: int) -> (SessionV, Seq<
    OutputV,
>) {
    let cmd = msg.str_or_empty("cmd"@);
    let nonce = msg.get_or_null("nonce"@);
    let args = msg.get_or_null("args"@);
    if cmd == "SET_ACTIVITY"@ {
        let pid = args.get_or_null("pid"@);
        let s2 = if pid != JsonV::Null {
            SessionV { last_pid: pid, ..s }
        } else {
            s
        };
        let activity = args.get_or_null("activity"@);
        if activity == JsonV::Null {
            (
                s2,
                seq![
                    OutputV::Bridge { activity: JsonV::Null, pid },
                    OutputV::Write(
                        PacketType::Frame,
                        reply_payload(cmd, JsonV::Null, JsonV::Null, nonce),
                    ),
                ],
            )
        } else {
            (
                s2,
                seq![
                    OutputV::Bridge {
                        activity: translated(activity, s.client_id, now_digits),
                        pid,
                    },
                    OutputV::Write(
                        PacketType::Frame,
                        reply_payload(
                            cmd,
                            echoed_activity(activity, s.client_id),
                            JsonV::Null,
                            nonce,
                        ),
                    ),
                ],
            )
        }
    } else if cmd == "CONNECTIONS_CALLBACK"@ {
        (
            s,
            seq![
                OutputV::Write(
                    PacketType::Frame,
                    reply_payload(
                        cmd,
                        JsonV::Object(obj_insert(Seq::empty(), "code"@, int_json(1000))),
                        JsonV::Str("ERROR"@),
                        nonce,
                    ),
                ),
            ],
        )
    } else if cmd == "INVITE_BROWSER"@ || cmd == "GUILD_TEMPLATE_BROWSER"@ {
        let code = args.str_or_empty("code"@);
        let is_invite = cmd == "INVITE_BROWSER"@;
        if code.len() == 0 {
            let message = if is_invite {
                "Invalid invite id: "@
            } else {
                "Invalid guild template id: "@
            };
            (
                s,
                seq![
                    OutputV::Write(
                        PacketType::Frame,
                        reply_payload(
                            cmd,
                            JsonV::Object(
                                obj_insert(
                                    obj_insert(
                                        Seq::empty(),
                                        "code"@,
                                        int_json(
                                            if is_invite {
                                                4011
                                            } else {
                                                4017
                                            },
                                        ),
                                    ),
                                    "message"@,
                                    JsonV::Str(message),
                                ),
                            ),
                            JsonV::Str("ERROR"@),
                            nonce,
                        ),
                    ),
                ],
            )
        } else {
            (
                s,
                seq![
                    OutputV::Emit(RpcEventV::Invite { code, is_invite }),
                    OutputV::Write(
                        PacketType::Frame,
                        reply_payload(
                            cmd,
                            JsonV::Object(obj_insert(Seq::empty(), "code"@, JsonV::Str(code))),
                            JsonV::Null,
                            nonce,
                        ),
                    ),
                ],
            )
        }
    } else if cmd == "DEEP_LINK"@ {
        (
            s,
            seq![
                OutputV::Emit(RpcEventV::DeepLink { args }),
                OutputV::Write(
                    PacketType::Frame,
                    reply_payload(cmd, JsonV::Null, JsonV::Null, nonce),
                ),
            ],
        )
    } else {
        (s, seq![])
    }
}

/// The state after one packet, its effects, and whether the connection ends.
pub open spec fn packet_step(s: SessionV, kind: PacketType, payload: JsonV, now_digits: int) -> (
    SessionV,
    Seq<OutputV>,
    bool,
) {
    match kind {
        PacketType::Ping => (s, seq![OutputV::Write(PacketType::Pong, payload)], false),
        PacketType::Pong => (s, seq![], false),
        PacketType::Close => (s, seq![], true),
        PacketType::Handshake => if s.handshook {
            (
                s,
                seq![
                    OutputV::Write(
                        PacketType::Close,
                        close_payload(CLOSE_UNSUPPORTED as int, "already handshook"@),
                    ),
                ],
                true,
            )
        } else if handshake_version(payload) != 1 {
            (
                s,
                seq![
                    OutputV::Write(
                        PacketType::Close,
                        close_payload(INVALID_VERSION as int, "unsupported version"@),
                    ),
                ],
                true,
            )
        } else if payload.str_or_empty("client_id"@).len() == 0 {
            (
                s,
                seq![
                    OutputV::Write(
                        PacketType::Close,
                        close_payload(INVALID_CLIENTID as int, "client id required"@),
                    ),
                ],
                true,
            )
        } else {
            (
                SessionV { client_id: payload.str_or_empty("client_id"@), handshook: true, ..s },
                seq![OutputV::Write(PacketType::Frame, ready_payload_spec())],
                false,
            )
        },
        PacketType::Frame => if !s.handshook {
            (
                s,
                seq![
                    OutputV::Write(
                        PacketType::Close,
                        close_payload(CLOSE_UNSUPPORTED as int, "need to handshake first"@),
                    ),
                ],
                true,
            )
        } else {
            let (s2, outs) = command_step(s, payload, now_digits);
            (s2, outs, false)
        },
    }
}

fn empty_fields() -> (r: Vec<(String, Json)>)
    ensures
        view_fields(r@) == Seq::<(Seq<char>, JsonV)>::empty(),
{
    let r: Vec<(String, Json)> = Vec::new();
    proof {
        lemma_view_fields(r@);
    }
    assert(view_fields(r@) =~= Seq::<(Seq<char>, JsonV)>::empty());
    r
}

fn close_message(code: i32, message: &str) -> (r: Json)
    ensures
        r@ == close_payload(code as int, message@),
{
    let mut f = empty_fields();
    insert_field(&mut f, "code", Json::integer(code as i64));
    insert_field(&mut f, "message", Json::string(message));
    Json::Object(f)
}

fn reply_message(cmd: &str, data: Json, evt: Json, nonce: Json) -> (r: Json)
    ensures
        r@ == reply_payload(cmd@, data@, evt@, nonce@),
{
    let mut f = empty_fields();
    insert_field(&mut f, "cmd", Json::string(cmd));
    insert_field(&mut f, "data", data);
    insert_field(&mut f, "evt", evt);
    insert_field(&mut f, "nonce", nonce);
    Json::Object(f)
}

/// The READY dispatch sent after a handshake.
pub fn ready_payload() -> (r: Json)
    ensures
        r@ == ready_payload_spec(),
        json_wf(r@),
{
    proof {
        lemma_ready_payload_wf();
    }
    let mut config = empty_fields();
    insert_field(&mut config, "cdn_host", Json::string("cdn.discordapp.com"));
    insert_field(&mut config, "api_endpoint", Json::string("//discord.com/api"));
    insert_field(&mut config, "environment", Json::string("production"));
    let mut user = empty_fields();
    insert_field(&mut user, "id", Json::string("1045800378228281345"));
    insert_field(&mut user, "username", Json::string("arrpc"));
    insert_field(&mut user, "discriminator", Json::string("0"));
    insert_field(&mut user, "global_name", Json::string("arRPC"));
    insert_field(&mut user, "avatar", Json::string("cfefa4d9839fb4bdf030f91c2a13e95c"));
    insert_field(&mut user, "avatar_decoration_data", Json::Null);
    insert_field(&mut user, "bot", Json::Bool(false));
    insert_field(&mut user, "flags", Json::integer(0));
    insert_field(&mut user, "premium_type", Json::integer(0));
    let mut data = empty_fields();
    insert_field(&mut data, "v", Json::integer(1));
    insert_field(&mut data, "config", Json::Object(config));
    insert_field(&mut data, "user", Json::Object(user));
    let mut f = empty_fields();
    insert_field(&mut f, "cmd", Json::string("DISPATCH"));
    insert_field(&mut f, "data", Json::Object(data));
    insert_field(&mut f, "evt", Json::string("READY"));
    insert_field(&mut f, "nonce", Json::Null);
    Json::Object(f)
}

fn version_of(payload: &Json) -> (r: Option<i64>)
    ensures
        match r {
            Some(v) => handshake_version(payload@) == v as int,
            None => true,
        },
        r is None <==> handshake_version(payload@) != 1 && (handshake_version(payload@) < i64::MIN
            || handshake_version(payload@) > i64::MAX),
{
    match payload.get("v") {
        None => Some(1),
        Some(v) => match v.as_i64() {
            Some(i) => Some(i),
            None => match v.as_str() {
                Some(t) => match parse_i64(t) {
                    Some(i) => Some(i),
                    None => Some(1),
                },
                None => Some(1),
            },
        },
    }
}

impl Session {
    /// A fresh connection, not yet handshaken.
    pub fn new(socket_id: u64) -> (r: Session)
        ensures
            r@ == (SessionV {
                socket_id,
                client_id: Seq::empty(),
                last_pid: JsonV::Null,
                handshook: false,
            }),
    {
        let s = Session {
            socket_id,
            client_id: String::new(),
            last_pid: Json::Null,
            handshook: false,
        };
        s
    }

    /// Handles a command frame from a client that has handshaken.
    pub fn handle_command(&mut self, msg: &Json, now_digits: usize) -> (r: Vec<Output>)
        ensures
            (final(self)@, view_outputs(r@)) == command_step(old(self)@, msg@, now_digits as int),
            json_wf(msg@) && json_wf(old(self)@.last_pid) ==> outputs_wf(view_outputs(r@))
                && json_wf(final(self)@.last_pid),
    {
        proof {
            if json_wf(msg@) && json_wf(self@.last_pid) {
                lemma_command_step_wf(self@, msg@, now_digits as int);
            }
        }
        proof {
            reveal_strlit("");
            assert(""@ =~= Seq::<char>::empty());
        }
        let cmd = msg.str_or_empty("cmd");
        let nonce = msg.get_or_null("nonce");
        let args = msg.get_or_null("args");
        let mut out: Vec<Output> = Vec::new();
        if str_eq(cmd, "SET_ACTIVITY") {
            let pid = args.get_or_null("pid");
            if !pid.is_null() {
                self.last_pid = pid.clone();
            }
            let activity = args.get_or_null("activity");
            if activity.is_null() {
                out.push(Output::Bridge { activity: Json::Null, pid });
                out.push(Output::Write(PacketType::Frame, reply_message(cmd, Json::Null, Json::Null, nonce)));
            } else {
                let forwarded = translate_activity_at(&activity, self.client_id.as_str(), now_digits);
                out.push(Output::Bridge { activity: forwarded, pid });
                let echo = match activity {
                    Json::Object(f) => {
                        let mut f = f;
                        insert_field(&mut f, "name", Json::string(""));
                        insert_field(&mut f, "application_id", Json::string(self.client_id.as_str()));
                        insert_field(&mut f, "type", Json::integer(0));
                        Json::Object(f)
                    },
                    other => other,
                };
                out.push(Output::Write(PacketType::Frame, reply_message(cmd, echo, Json::Null, nonce)));
            }
        } else if str_eq(cmd, "CONNECTIONS_CALLBACK") {
            let mut data = empty_fields();
            insert_field(&mut data, "code", Json::integer(1000));
            out.push(Output::Write(PacketType::Frame, reply_message(cmd, Json::Object(data), Json::string("ERROR"), nonce)));
        } else if str_eq(cmd, "INVITE_BROWSER") || str_eq(cmd, "GUILD_TEMPLATE_BROWSER") {
            let code = args.str_or_empty("code");
            let is_invite = str_eq(cmd, "INVITE_BROWSER");
            if code.is_empty() {
                let mut message = String::new();
                push_str(&mut message, if is_invite { "Invalid invite id: " } else { "Invalid guild template id: " });
                push_str(&mut message, code);
                assert(message@ =~= (if is_invite {
                    "Invalid invite id: "@
                } else {
                    "Invalid guild template id: "@
                }));
                let mut data = empty_fields();
                insert_field(&mut data, "code", Json::integer(if is_invite { 4011 } else { 4017 }));
                insert_field(&mut data, "message", Json::Str(message));
                out.push(Output::Write(PacketType::Frame, reply_message(cmd, Json::Object(data), Json::string("ERROR"), nonce)));
            } else {
                out.push(Output::Emit(RpcEvent::Invite { code: code.to_owned(), is_invite }));
                let mut data = empty_fields();
                insert_field(&mut data, "code", Json::string(code));
                out.push(Output::Write(PacketType::Frame, reply_message(cmd, Json::Object(data), Json::Null, nonce)));
            }
        } else if str_eq(cmd, "DEEP_LINK") {
            out.push(Output::Emit(RpcEvent::DeepLink { args }));
            out.push(Output::Write(PacketType::Frame, reply_message(cmd, Json::Null, Json::Null, nonce)));
        }
        assert(view_outputs(out@) =~= command_step(old(self)@, msg@, now_digits as int).1);
        out
    }

    /// Handles one packet.
    pub fn handle_packet(&mut self, kind: PacketType, payload: &Json, now_digits: usize) -> (r: Step)
        ensures
            (final(self)@, view_outputs(r.outputs@), r.stop) == packet_step(
                old(self)@,
                kind,
                payload@,
                now_digits as int,
            ),
            json_wf(payload@) && json_wf(old(self)@.last_pid) ==> outputs_wf(view_outputs(r.outputs@))
                && json_wf(final(self)@.last_pid),
    {
        proof {
            if json_wf(payload@) && json_wf(self@.last_pid) {
                lemma_packets_keep_json_wf(self@, kind, payload@, now_digits as int);
            }
        }
        let mut out: Vec<Output> = Vec::new();
        let mut stop = false;
        match kind {
            PacketType::Ping => {
                out.push(Output::Write(PacketType::Pong, payload.clone()));
            },
            PacketType::Pong => {},
            PacketType::Close => {
                stop = true;
            },
            PacketType::Handshake => {
                if self.handshook {
                    out.push(Output::Write(PacketType::Close, close_message(CLOSE_UNSUPPORTED, "already handshook")));
                    stop = true;
                } else {
                    let version = version_of(payload);
                    let is_one = match version {
                        Some(v) => v == 1,
                        None => false,
                    };
                    if !is_one {
                        out.push(Output::Write(PacketType::Close, close_message(INVALID_VERSION, "unsupported version")));
                        stop = true;
                    } else {
                        let client_id = payload.str_or_empty("client_id");
                        if client_id.is_empty() {
                            out.push(Output::Write(PacketType::Close, close_message(INVALID_CLIENTID, "client id required")));
                            stop = true;
                        } else {
                            self.client_id = client_id.to_owned();
                            self.handshook = true;
                            out.push(Output::Write(PacketType::Frame, ready_payload()));
                        }
                    }
                }
            },
            PacketType::Frame => {
                if !self.handshook {
                    out.push(Output::Write(PacketType::Close, close_message(CLOSE_UNSUPPORTED, "need to handshake first")));
                    stop = true;
                } else {
                    out = self.handle_command(payload, now_digits);
                }
            },
        }
        assert(view_outputs(out@) =~= packet_step(old(self)@, kind, payload@, now_digits as int).1);
        Step { outputs: out, stop }
    }

    /// What the bridge is told when the connection ends: a session that had
    /// handshaken clears its activity, for the last pid it reported.
    pub fn on_close(&self) -> (r: Option<Output>)
        ensures
            match r {
                Some(o) => self.handshook && o@ == (OutputV::Bridge {
                    activity: JsonV::Null,
                    pid: self.last_pid@,
                }),
                None => !self.handshook,
            },
    {
        if self.handshook {
            Some(Output::Bridge { activity: Json::Null, pid: self.last_pid.clone() })
        } else {
            None
        }
    }
}

} // verus!

verus! {

/// A client that has not handshaken cannot run commands: the frame is
/// answered with a close and the connection ends, with nothing else done.
pub proof fn lemma_commands_need_handshake(s: SessionV, payload: JsonV, now_digits: int)
    requires
        !s.handshook,
    ensures
        packet_step(s, PacketType::Frame, payload, now_digits) == (
            s,
            seq![
                OutputV::Write(
                    PacketType::Close,
                    close_payload(CLOSE_UNSUPPORTED as int, "need to handshake first"@),
                ),
            ],
            true,
        ),
{
}

/// A second handshake on the same connection is refused and ends it.
pub proof fn lemma_single_handshake(s: SessionV, payload: JsonV, now_digits: int)
    requires
        s.handshook,
    ensures
        packet_step(s, PacketType::Handshake, payload, now_digits) == (
            s,
            seq![
                OutputV::Write(
                    PacketType::Close,
                    close_payload(CLOSE_UNSUPPORTED as int, "already handshook"@),
                ),
            ],
            true,
        ),
{
}

/// A version-1 handshake with a client id is answered with the same READY
/// dispatch for every client, and opens the session for that client.
pub proof fn lemma_handshake_opens_session(s: SessionV, payload: JsonV, now_digits: int)
    requires
        !s.handshook,
        handshake_version(payload) == 1,
        payload.str_or_empty("client_id"@).len() > 0,
    ensures
        packet_step(s, PacketType::Handshake, payload, now_digits) == (
            SessionV { client_id: payload.str_or_empty("client_id"@), handshook: true, ..s },
            seq![OutputV::Write(PacketType::Frame, ready_payload_spec())],
            false,
        ),
{
}

/// Nothing reaches the bridge or the app from a connection that has not
/// handshaken, and no packet undoes a handshake.
pub proof fn lemma_effects_need_handshake(
    s: SessionV,
    kind: PacketType,
    payload: JsonV,
    now_digits: int,
)
    ensures
        forall|i: int|
            0 <= i < packet_step(s, kind, payload, now_digits).1.len() ==> (
            #[trigger] packet_step(s, kind, payload, now_digits).1[i] is Bridge
                || packet_step(s, kind, payload, now_digits).1[i] is Emit) ==> s.handshook,
        s.handshook ==> packet_step(s, kind, payload, now_digits).0.handshook,
        s.handshook ==> packet_step(s, kind, payload, now_digits).0.client_id == s.client_id,
{
}

proof fn lemma_reply_fields_differ()
    ensures
        "cmd"@ != "nonce"@,
        "data"@ != "nonce"@,
        "evt"@ != "nonce"@,
{
    reveal_strlit("cmd");
    reveal_strlit("data");
    reveal_strlit("evt");
    reveal_strlit("nonce");
    assert("cmd"@.len() == 3);
    assert("data"@.len() == 4);
    assert("evt"@.len() == 3);
    assert("nonce"@.len() == 5);
    assert("cmd"@[0] != "evt"@[0]);
}

/// Every reply carries the nonce of the request it answers (null when the
/// request had none).
pub proof fn lemma_replies_carry_nonce(s: SessionV, msg: JsonV, now_digits: int)
    ensures
        forall|i: int|
            0 <= i < command_step(s, msg, now_digits).1.len() ==> (
            #[trigger] command_step(s, msg, now_digits).1[i] matches OutputV::Write(k, p) ==> p.get(
                "nonce"@,
            ) == Some(msg.get_or_null("nonce"@))),
{
    lemma_reply_fields_differ();
    assert forall|cmd: Seq<char>, data: JsonV, evt: JsonV, nonce: JsonV|
        #[trigger] reply_payload(cmd, data, evt, nonce).get("nonce"@) == Some(nonce) by {
        let f1 = obj_insert(Seq::empty(), "cmd"@, JsonV::Str(cmd));
        let f2 = obj_insert(f1, "data"@, data);
        let f3 = obj_insert(f2, "evt"@, evt);
        crate::json::lemma_obj_get_insert_same(f3, "nonce"@, nonce);
    }
}

/// An effect whose JSON values, all of them, are well formed.
pub open spec fn output_wf(o: OutputV) -> bool {
    match o {
        OutputV::Write(_, j) => json_wf(j),
        OutputV::Bridge { activity, pid } => json_wf(activity) && json_wf(pid),
        OutputV::Emit(RpcEventV::DeepLink { args }) => json_wf(args),
        OutputV::Emit(RpcEventV::Invite { .. }) => true,
    }
}

pub open spec fn outputs_wf(s: Seq<OutputV>) -> bool {
    forall|i: int| 0 <= i < s.len() ==> output_wf(#[trigger] s[i])
}

proof fn lemma_empty_wf()
    ensures
        json_wf(JsonV::Object(Seq::empty())),
{
    lemma_json_wf_unfold(JsonV::Object(Seq::empty()));
}

proof fn lemma_scalars_wf(s: Seq<char>, i: int, b: bool)
    ensures
        json_wf(JsonV::Str(s)),
        json_wf(int_json(i)),
        json_wf(JsonV::Null),
        json_wf(JsonV::Bool(b)),
{
    lemma_json_wf_unfold(JsonV::Str(s));
    lemma_json_wf_unfold(int_json(i));
    lemma_json_wf_unfold(JsonV::Null);
    lemma_json_wf_unfold(JsonV::Bool(b));
}

proof fn lemma_payloads_wf(cmd: Seq<char>, data: JsonV, evt: JsonV, nonce: JsonV, code: int, m: Seq<char>)
    ensures
        json_wf(data) && json_wf(evt) && json_wf(nonce) ==> json_wf(
            reply_payload(cmd, data, evt, nonce),
        ),
        json_wf(close_payload(code, m)),
{
    broadcast use group_json_wf;

    lemma_empty_wf();
    lemma_scalars_wf(cmd, code, true);
    lemma_scalars_wf(m, code, true);
}

proof fn lemma_ready_payload_wf()
    ensures
        json_wf(ready_payload_spec()),
{
    broadcast use group_json_wf;

    lemma_empty_wf();
    lemma_scalars_wf("cdn.discordapp.com"@, 0, false);
    lemma_scalars_wf("//discord.com/api"@, 1, false);
    lemma_scalars_wf("production"@, 0, false);
    lemma_scalars_wf("1045800378228281345"@, 0, false);
    lemma_scalars_wf("arrpc"@, 0, false);
    lemma_scalars_wf("0"@, 0, false);
    lemma_scalars_wf("arRPC"@, 0, false);
    lemma_scalars_wf("cfefa4d9839fb4bdf030f91c2a13e95c"@, 0, false);
    lemma_scalars_wf("DISPATCH"@, 0, false);
    lemma_scalars_wf("READY"@, 0, false);
}

/// Every effect of a command frame carries well-formed JSON when the frame
/// and the session's last pid are well formed, and the pid stays so.
proof fn lemma_command_step_wf(s: SessionV, msg: JsonV, now_digits: int)
    requires
        json_wf(msg),
        json_wf(s.last_pid),
    ensures
        outputs_wf(command_step(s, msg, now_digits).1),
        json_wf(command_step(s, msg, now_digits).0.last_pid),
{
    broadcast use group_json_wf;

    let cmd = msg.str_or_empty("cmd"@);
    let nonce = msg.get_or_null("nonce"@);
    let args = msg.get_or_null("args"@);
    let pid = args.get_or_null("pid"@);
    let activity = args.get_or_null("activity"@);
    let code = args.str_or_empty("code"@);
    assert(json_wf(nonce) && json_wf(args) && json_wf(pid) && json_wf(activity));
    lemma_empty_wf();
    lemma_scalars_wf(cmd, 1000, false);
    lemma_scalars_wf(code, 4011, false);
    lemma_scalars_wf(code, 4017, false);
    lemma_scalars_wf("ERROR"@, 0, false);
    lemma_scalars_wf(Seq::empty(), 0, false);
    lemma_scalars_wf(s.client_id, 0, false);
    lemma_scalars_wf("Invalid invite id: "@, 0, false);
    lemma_scalars_wf("Invalid guild template id: "@, 0, false);
    if activity != JsonV::Null {
        crate::activity::lemma_translated_keeps_wf(activity, s.client_id, now_digits);
        if let JsonV::Object(f) = activity {
            assert(json_wf(JsonV::Object(f)));
        }
        assert(json_wf(echoed_activity(activity, s.client_id)));
    }
    let e = echoed_activity(activity, s.client_id);
    lemma_payloads_wf(cmd, JsonV::Null, JsonV::Null, nonce, 0, Seq::empty());
    lemma_payloads_wf(cmd, e, JsonV::Null, nonce, 0, Seq::empty());
    lemma_payloads_wf(
        cmd,
        JsonV::Object(obj_insert(Seq::empty(), "code"@, int_json(1000))),
        JsonV::Str("ERROR"@),
        nonce,
        0,
        Seq::empty(),
    );
    lemma_payloads_wf(
        cmd,
        JsonV::Object(obj_insert(Seq::empty(), "code"@, JsonV::Str(code))),
        JsonV::Null,
        nonce,
        0,
        Seq::empty(),
    );
    let m = if cmd == "INVITE_BROWSER"@ {
        "Invalid invite id: "@
    } else {
        "Invalid guild template id: "@
    };
    let k = if cmd == "INVITE_BROWSER"@ { 4011int } else { 4017int };
    lemma_payloads_wf(
        cmd,
        JsonV::Object(obj_insert(obj_insert(Seq::empty(), "code"@, int_json(k)), "message"@, JsonV::Str(m))),
        JsonV::Str("ERROR"@),
        nonce,
        0,
        Seq::empty(),
    );
    let outs = command_step(s, msg, now_digits).1;
    assert forall|i: int| 0 <= i < outs.len() implies output_wf(#[trigger] outs[i]) by {}
}

/// Handling packets keeps every JSON value well formed: a well-formed packet
/// on a session whose last pid is well formed yields effects whose JSON is
/// well formed, and a next state whose last pid is too.
pub proof fn lemma_packets_keep_json_wf(s: SessionV, kind: PacketType, payload: JsonV, now_digits: int)
    requires
        json_wf(payload),
        json_wf(s.last_pid),
    ensures
        outputs_wf(packet_step(s, kind, payload, now_digits).1),
        json_wf(packet_step(s, kind, payload, now_digits).0.last_pid),
{
    lemma_ready_payload_wf();
    lemma_payloads_wf(Seq::empty(), JsonV::Null, JsonV::Null, JsonV::Null, CLOSE_UNSUPPORTED as int, "already handshook"@);
    lemma_payloads_wf(Seq::empty(), JsonV::Null, JsonV::Null, JsonV::Null, INVALID_VERSION as int, "unsupported version"@);
    lemma_payloads_wf(Seq::empty(), JsonV::Null, JsonV::Null, JsonV::Null, INVALID_CLIENTID as int, "client id required"@);
    lemma_payloads_wf(Seq::empty(), JsonV::Null, JsonV::Null, JsonV::Null, CLOSE_UNSUPPORTED as int, "need to handshake first"@);
    if kind == PacketType::Frame && s.handshook {
        lemma_command_step_wf(s, payload, now_digits);
    }
    let outs = packet_step(s, kind, payload, now_digits).1;
    assert forall|i: int| 0 <= i < outs.len() implies output_wf(#[trigger] outs[i]) by {}
}

/// A request to open an invite or a guild template that carries a code is
/// reported to the app as a link of the kind that was asked for: an invite
/// exactly when the command is `INVITE_BROWSER`, a guild template for
/// `GUILD_TEMPLATE_BROWSER`, with the code handed on as it was sent, and the
/// request is then answered.
pub proof fn lemma_link_kind_follows_command(
    s: SessionV,
    msg: JsonV,
    now_digits: int,
    cmd: Seq<char>,
    args: JsonV,
    code: Seq<char>,
)
    requires
        msg.get("cmd"@) == Some(JsonV::Str(cmd)),
        cmd == "INVITE_BROWSER"@ || cmd == "GUILD_TEMPLATE_BROWSER"@,
        msg.get("args"@) == Some(args),
        args.get("code"@) == Some(JsonV::Str(code)),
        code.len() > 0,
    ensures
        command_step(s, msg, now_digits).1.len() == 2,
        command_step(s, msg, now_digits).1[0] == OutputV::Emit(
            RpcEventV::Invite { code, is_invite: cmd == "INVITE_BROWSER"@ },
        ),
        cmd == "GUILD_TEMPLATE_BROWSER"@ ==> command_step(s, msg, now_digits).1[0]
            == OutputV::Emit(RpcEventV::Invite { code, is_invite: false }),
        command_step(s, msg, now_digits).1[1] is Write,
{
    reveal_strlit("INVITE_BROWSER");
    reveal_strlit("GUILD_TEMPLATE_BROWSER");
    reveal_strlit("SET_ACTIVITY");
    reveal_strlit("CONNECTIONS_CALLBACK");
    assert("INVITE_BROWSER"@.len() == 14 && "GUILD_TEMPLATE_BROWSER"@.len() == 22);
    assert("SET_ACTIVITY"@.len() == 12 && "CONNECTIONS_CALLBACK"@.len() == 20);
    assert(msg.str_or_empty("cmd"@) == cmd);
    assert(msg.get_or_null("args"@) == args);
    assert(args.str_or_empty("code"@) == code);
}

} // verus!
