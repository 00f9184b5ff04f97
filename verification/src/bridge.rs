//! What the websocket bridge remembers: the last activity of every live RPC
//! session, so that a client mod connecting later is brought up to date.

use std::collections::HashMap;

use vstd::prelude::*;
use vstd::std_specs::iter::IteratorSpec;

use crate::json::{
    group_json_wf, insert_field, json_wf, lemma_json_wf_unfold, lemma_view_fields, obj_insert,
    view_fields, Json, JsonV,
};
use crate::text::{decimal, decimal_string};

verus! {

/// `{"activity", "pid", "socketId"}`, the message the bridge broadcasts.
pub open spec fn bridge_msg(socket_id: u64, activity: JsonV, pid: JsonV) -> JsonV {
    JsonV::Object(
        obj_insert(
            obj_insert(obj_insert(Seq::empty(), "activity"@, activity), "pid"@, pid),
            "socketId"@,
            JsonV::Str(decimal(socket_id as nat)),
        ),
    )
}

proof fn lemma_bridge_msg_wf(socket_id: u64, activity: JsonV, pid: JsonV)
    ensures
        json_wf(activity) && json_wf(pid) ==> json_wf(bridge_msg(socket_id, activity, pid)),
{
    broadcast use group_json_wf;

    lemma_json_wf_unfold(JsonV::Object(Seq::empty()));
    lemma_json_wf_unfold(JsonV::Str(decimal(socket_id as nat)));
}

/// The message the bridge broadcasts for a session's activity.
pub fn bridge_message(socket_id: u64, activity: Json, pid: Json) -> (r: Json)
    ensures
        r@ == bridge_msg(socket_id, activity@, pid@),
        json_wf(activity@) && json_wf(pid@) ==> json_wf(r@),
{
    proof {
        lemma_bridge_msg_wf(socket_id, activity@, pid@);
    }
    let mut f: Vec<(String, Json)> = Vec::new();
    proof {
        lemma_view_fields(f@);
    }
    assert(view_fields(f@) =~= Seq::<(Seq<char>, JsonV)>::empty());
    insert_field(&mut f, "activity", activity);
    insert_field(&mut f, "pid", pid);
    insert_field(&mut f, "socketId", Json::Str(decimal_string(socket_id)));
    Json::Object(f)
}

/// The last message of every session that has an activity, by socket.
pub struct BridgeState {
    last: HashMap<u64, Json>,
}

impl View for BridgeState {
    type V = Map<u64, JsonV>;

    closed spec fn view(&self) -> Map<u64, JsonV> {
        self.last@.map_values(|j: Json| j@)
    }
}

impl BridgeState {
    pub fn new() -> (r: BridgeState)
        ensures
            r@ == Map::<u64, JsonV>::empty(),
    {
        let r = BridgeState { last: HashMap::new() };
        assert(r@ =~= Map::<u64, JsonV>::empty());
        r
    }

    /// Records an activity update and returns the message to broadcast: a
    /// null activity forgets the session, any other replaces its last one.
    pub fn record(&mut self, socket_id: u64, activity: Json, pid: Json) -> (msg: Json)
        ensures
            msg@ == bridge_msg(socket_id, activity@, pid@),
            json_wf(activity@) && json_wf(pid@) ==> json_wf(msg@),
            final(self)@ == if activity@ == JsonV::Null {
                old(self)@.remove(socket_id)
            } else {
                old(self)@.insert(socket_id, msg@)
            },
    {
        broadcast use vstd::std_specs::hash::group_hash_axioms;

        let clear = activity.is_null();
        let msg = bridge_message(socket_id, activity, pid);
        if clear {
            self.last.remove(&socket_id);
            assert(self@ =~= old(self)@.remove(socket_id));
        } else {
            self.last.insert(socket_id, msg.clone());
            assert(self@ =~= old(self)@.insert(socket_id, msg@));
        }
        msg
    }

    /// The messages to replay to a client that has just connected: one per
    /// session with an activity.
    pub fn snapshot(&self) -> (r: Vec<Json>)
        ensures
            r@.len() == self@.dom().len(),
            forall|i: int| 0 <= i < r@.len() ==> self@.contains_value(#[trigger] r@[i]@),
            forall|k: u64|
                #[trigger] self@.contains_key(k) ==> exists|i: int|
                    0 <= i < r@.len() && r@[i]@ == self@[k],
    {
        broadcast use vstd::std_specs::hash::group_hash_axioms;

        let ghost v = vstd::std_specs::hash::spec_hash_map_iter(&self.last).remaining();
        let mut out: Vec<Json> = Vec::new();
        for p in it: self.last.iter()
            invariant
                it.seq() == v,
                out@.len() == it.index(),
                forall|j: int| 0 <= j < it.index() ==> (#[trigger] out@[j])@ == (*v[j].1)@,
        {
            out.push(p.1.clone());
        }
        proof {
            assert(out@.len() == v.len());
            assert(self@.dom() =~= self.last@.dom());
            assert forall|j: int| 0 <= j < out@.len() implies self@.contains_value(
                #[trigger] out@[j]@,
            ) by {
                let k = *v[j].0;
                assert(self.last@.contains_key(k) && self.last@[k] == *v[j].1);
                assert(self@.contains_key(k) && self@[k] == out@[j]@);
            }
            assert forall|k: u64| #[trigger] self@.contains_key(k) implies exists|j: int|
                0 <= j < out@.len() && out@[j]@ == self@[k] by {
                assert(self.last@.contains_key(k));
                assert(v.contains((&k, &self.last@[k])));
                let j = choose|j: int| 0 <= j < v.len() && v[j] == (&k, &self.last@[k]);
                assert(out@[j]@ == self@[k]);
            }
        }
        out
    }
}

} // verus!
