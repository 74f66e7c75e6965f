//! The handlers of each message variant.
//!
//! Every handler is a total decision function: it mutates the ring state
//! and the transport model, and describes the messages to send as
//! [`Effect`] values. Malformed relay headers are refused with
//! `InvalidPayload`; nothing here performs I/O.

use crate::did::Did;
use crate::error::Error;
use crate::handlers::Effect;
use crate::handlers::HandleMsg;
use crate::handlers::MessageHandler;
use crate::message::AlreadyConnected;
use crate::message::ConnectNodeReport;
use crate::message::ConnectNodeSend;
use crate::message::CustomMessage;
use crate::message::FindSuccessorReport;
use crate::message::FindSuccessorSend;
use crate::message::FindSuccessorThen;
use crate::message::FoundVNode;
use crate::message::JoinDHT;
use crate::message::LeaveDHT;
use crate::message::Message;
use crate::message::MessagePayload;
use crate::message::NotifyPredecessorReport;
use crate::message::NotifyPredecessorSend;
use crate::message::SearchVNode;
use crate::message::StoreVNode;
use crate::message::SyncVNodeWithSuccessor;
use crate::relay::MessageRelay;
use crate::relay::RelayMethod;
use crate::ring::closest_preceding_from;
use crate::ring::PeerRingAction;
use crate::ring::PeerRingRemoteAction;
use crate::vnode::clone_bytes;
use crate::vnode::VirtualNode;
use vstd::prelude::*;

verus! {

broadcast use vstd::std_specs::vec::axiom_vec_index_decreases;

/// Whether some entry of a store snapshot carries this key.
pub open spec fn old_ring_stores(s: Seq<VirtualNode>, id: Did) -> bool {
    exists|j: int| 0 <= j < s.len() && s[j].did == id
}

/// What handling `LeaveDHT` guarantees: the departed peer is dropped
/// from the successor list, the matching finger entries and the
/// predecessor slot; nothing is sent.
pub open spec fn leave_handled(
    pre: MessageHandler,
    post: MessageHandler,
    msg: LeaveDHT,
    r: Result<Vec<Effect>, Error>,
) -> bool {
    &&& post.wf()
    &&& post.transports == pre.transports
    &&& post.dht.did == pre.dht.did
    &&& post.dht.successor.successors@ == pre.dht.successor.successors@.remove_value(msg.id)
    &&& post.dht.predecessor == (if pre.dht.predecessor == Option::Some(msg.id) {
        Option::<Did>::None
    } else {
        pre.dht.predecessor
    })
    &&& post.dht.finger@.len() == pre.dht.finger@.len()
    &&& (forall|i: int|
        0 <= i < pre.dht.finger@.len() ==> post.dht.finger@[i] == (if pre.dht.finger@[i]
            == Option::Some(msg.id) {
            Option::<Did>::None
        } else {
            pre.dht.finger@[i]
        }))
    &&& post.dht.storage == pre.dht.storage
    &&& post.dht.fix_finger_index == pre.dht.fix_finger_index
    &&& (r matches Ok(effs) && effs@.len() == 0)
}

/// What handling `JoinDHT` guarantees: the joiner seeds the finger
/// entries it answers for and enters the successor list when closer than
/// the farthest entry; unless the chosen hop is the payload's sender, the
/// joiner is asked to find this node's own successor.
pub open spec fn join_handled(
    pre: MessageHandler,
    post: MessageHandler,
    ctx: MessagePayload,
    msg: JoinDHT,
    r: Result<Vec<Effect>, Error>,
) -> bool {
    let s = pre.dht.successor.successors@;
    let adopt = s.len() == 0 || crate::did::dist(pre.dht.did, msg.id) < crate::did::dist(
        pre.dht.did,
        pre.dht.successor.max_spec(),
    );
    let guarded = ctx.relay.path_end_cursor >= ctx.relay.path@.len() || msg.id
        != ctx.sender_spec();
    &&& post.wf()
    &&& post.transports == pre.transports
    &&& post.dht.did == pre.dht.did
    &&& post.dht.predecessor == pre.dht.predecessor
    &&& post.dht.storage == pre.dht.storage
    &&& post.dht.fix_finger_index == pre.dht.fix_finger_index
    &&& r is Ok
    &&& (msg.id == pre.dht.did ==> post.dht.successor == pre.dht.successor && post.dht.finger
        == pre.dht.finger)
    &&& (msg.id != pre.dht.did ==> {
        &&& (adopt ==> post.dht.successor.successors@ == crate::successor::updated_successors(
            pre.dht.did,
            pre.dht.successor.cap as nat,
            s,
            msg.id,
        ))
        &&& (!adopt ==> post.dht.successor == pre.dht.successor)
        &&& post.dht.finger@.len() == pre.dht.finger@.len()
        &&& (forall|k: int|
            0 <= k < 160 ==> post.dht.finger@[k] == crate::ring::finger_candidate(
                pre.dht.did,
                msg.id,
                k as nat,
                pre.dht.finger@[k],
            ))
    })
    &&& (r matches Ok(effs) ==> {
        if msg.id != pre.dht.did && guarded {
            &&& effs@.len() == 1
            &&& effs@[0] matches Effect::SendMessage { next_hop, destination, message }
            &&& next_hop == msg.id
            &&& destination == msg.id
            &&& message matches Message::FindSuccessorSend(b)
            &&& b.id == pre.dht.did
            &&& b.handler is SyncSuccessor
            &&& !b.strict
        } else {
            effs@.len() == 0
        }
    })
}

/// What handling `SyncVNodeWithSuccessor` guarantees: every handed-over
/// value is stored under its key; nothing is sent.
pub open spec fn sync_vnode_handled(
    pre: MessageHandler,
    post: MessageHandler,
    msg: SyncVNodeWithSuccessor,
    r: Result<Vec<Effect>, Error>,
) -> bool {
    &&& post.wf()
    &&& post.dht.did == pre.dht.did
    &&& post.dht.successor == pre.dht.successor
    &&& post.dht.finger == pre.dht.finger
    &&& post.dht.predecessor == pre.dht.predecessor
    &&& post.dht.fix_finger_index == pre.dht.fix_finger_index
    &&& post.transports == pre.transports
    &&& (forall|j: int|
        0 <= j < msg.data@.len() ==> post.dht.stores_spec(#[trigger] msg.data@[j].did))
    &&& (r matches Ok(effs) && effs@.len() == 0)
}

/// What handling `CustomMessage` guarantees: the node is untouched and
/// the bytes are handed to the callback, verbatim.
pub open spec fn custom_message_handled(
    pre: MessageHandler,
    post: MessageHandler,
    msg: CustomMessage,
    r: Result<Vec<Effect>, Error>,
) -> bool {
    &&& post == pre
    &&& r is Ok
    &&& (r matches Ok(effs) ==> {
        &&& effs@.len() == 1
        &&& effs@[0] matches Effect::Deliver { data }
        &&& data@ == msg.0@
    })
}

/// The relay step at this hop goes through: the header is well formed
/// and, on a backward payload, the cursor still has path to consume.
pub open spec fn relay_step_ok(ctx: MessagePayload) -> bool {
    ctx.relay.wf() && (ctx.relay.method is REPORT ==> ctx.relay.path_end_cursor + 2
        <= ctx.relay.path@.len())
}

/// A backward payload stands at its origin after this hop's step — or the
/// payload is outward, which also ends its travel here.
pub open spec fn relay_terminal(ctx: MessagePayload) -> bool {
    ctx.relay.method is SEND || crate::relay::report_next(
        ctx.relay.path@,
        ctx.relay.path_end_cursor + 1,
    ) is None
}

/// What handling `ConnectNodeSend` guarantees: routed towards its target;
/// at the target, an answer is prepared for an unknown sender and an
/// already-connected notice reported for a known one.
pub open spec fn connect_node_send_handled(
    pre: MessageHandler,
    post: MessageHandler,
    ctx: MessagePayload,
    msg: ConnectNodeSend,
    r: Result<Vec<Effect>, Error>,
) -> bool {
    &&& post.wf()
    &&& post.dht == pre.dht
    &&& post.transports == pre.transports
    &&& (r is Ok <==> ctx.relay.method is SEND && ctx.relay.wf())
    &&& (r matches Ok(effs) ==> ({
        &&& effs@.len() == 1
        &&& (pre.dht.did != msg.target_id ==> {
            &&& effs@[0] matches Effect::Forward { relay }
            &&& relay.path@ == ctx.relay.path@.push(pre.dht.did)
            &&& relay.method is SEND
            &&& relay.destination == ctx.relay.destination
        })
        &&& (pre.dht.did == msg.target_id && !pre.transports.connected@.contains(msg.sender_id)
            ==> {
            &&& effs@[0] matches Effect::AnswerOffer {
                sender_id,
                transport_uuid,
                handshake_info,
                relay,
            }
            &&& sender_id == msg.sender_id
            &&& transport_uuid@ == msg.transport_uuid@
            &&& handshake_info@ == msg.handshake_info@
            &&& relay.method is REPORT
            &&& relay.path@ == ctx.relay.path@.push(pre.dht.did)
        })
        &&& (pre.dht.did == msg.target_id && pre.transports.connected@.contains(msg.sender_id)
            ==> {
            &&& effs@[0] matches Effect::SendReport { relay, message }
            &&& message matches Message::AlreadyConnected(b)
            &&& b.answer_id == pre.dht.did
            &&& relay.method is REPORT
            &&& relay.path@ == ctx.relay.path@.push(pre.dht.did)
        })
    }))
}

/// What handling `ConnectNodeReport` guarantees: carried backwards while
/// path remains; at the offering peer the pending transport is found,
/// promoted under the answering id, and the answer handed out for
/// installation.
pub open spec fn connect_node_report_handled(
    pre: MessageHandler,
    post: MessageHandler,
    ctx: MessagePayload,
    msg: ConnectNodeReport,
    r: Result<Vec<Effect>, Error>,
) -> bool {
    let has_pending = exists|j: int|
        0 <= j < pre.transports.pending@.len() && pre.transports.pending@[j]@
            == msg.transport_uuid@;
    &&& post.wf()
    &&& post.dht == pre.dht
    &&& (r is Ok <==> (relay_step_ok(ctx) && (!relay_terminal(ctx) || has_pending)))
    &&& (r matches Ok(effs) ==> ({
        &&& (!relay_terminal(ctx) ==> {
            &&& post.transports == pre.transports
            &&& effs@.len() == 1
            &&& effs@[0] matches Effect::Forward { relay }
            &&& relay.method is REPORT
            &&& relay.path@ == ctx.relay.path@
            &&& relay.path_end_cursor == ctx.relay.path_end_cursor + 1
        })
        &&& (relay_terminal(ctx) ==> {
            &&& post.transports.connected@.contains(msg.answer_id)
            &&& effs@.len() == 1
            &&& effs@[0] matches Effect::InstallAnswer {
                answer_id,
                transport_uuid,
                handshake_info,
            }
            &&& answer_id == msg.answer_id
            &&& transport_uuid@ == msg.transport_uuid@
            &&& handshake_info@ == msg.handshake_info@
        })
    }))
    &&& (r is Err && !relay_step_ok(ctx) ==> r == Result::<Vec<Effect>, Error>::Err(
        Error::InvalidPayload,
    ) && post == pre)
    &&& (r is Err && relay_step_ok(ctx) ==> r == Result::<Vec<Effect>, Error>::Err(
        Error::PendingTransportMissing,
    ))
}

/// What handling `AlreadyConnected` guarantees: carried backwards while
/// path remains; at the offering peer the transport's existence is
/// checked and nothing else happens.
pub open spec fn already_connected_handled(
    pre: MessageHandler,
    post: MessageHandler,
    ctx: MessagePayload,
    msg: AlreadyConnected,
    r: Result<Vec<Effect>, Error>,
) -> bool {
    &&& post.wf()
    &&& post.dht == pre.dht
    &&& post.transports == pre.transports
    &&& (r is Ok <==> (relay_step_ok(ctx) && (!relay_terminal(ctx)
        || pre.transports.connected@.contains(msg.answer_id))))
    &&& (r matches Ok(effs) ==> ({
        &&& (!relay_terminal(ctx) ==> effs@.len() == 1 && (
        effs@[0] matches Effect::Forward { relay } && relay.method is REPORT
            && relay.path_end_cursor == ctx.relay.path_end_cursor + 1))
        &&& (relay_terminal(ctx) ==> effs@.len() == 0)
    }))
    &&& (r is Err && !relay_step_ok(ctx) ==> r == Result::<Vec<Effect>, Error>::Err(
        Error::InvalidPayload,
    ))
    &&& (r is Err && relay_step_ok(ctx) ==> r == Result::<Vec<Effect>, Error>::Err(
        Error::TransportNotFound,
    ))
}

/// What handling `FindSuccessorSend` guarantees: answered with the
/// closest successor along the reversed path when the target is in reach
/// or no finger precedes it; else forwarded to the closest preceding
/// finger, rewriting the destination under a strict lookup.
pub open spec fn find_successor_send_handled(
    pre: MessageHandler,
    post: MessageHandler,
    ctx: MessagePayload,
    msg: FindSuccessorSend,
    r: Result<Vec<Effect>, Error>,
) -> bool {
    let hop = closest_preceding_from(pre.dht.did, pre.dht.finger@, msg.id, 160);
    let local = pre.dht.answers_locally(msg.id) || hop == pre.dht.did;
    &&& post.wf()
    &&& post.dht == pre.dht
    &&& post.transports == pre.transports
    &&& (r is Ok <==> ctx.relay.method is SEND && ctx.relay.wf())
    &&& (r matches Ok(effs) ==> ({
        &&& effs@.len() == 1
        &&& (local ==> {
            &&& effs@[0] matches Effect::SendReport { relay, message }
            &&& message matches Message::FindSuccessorReport(b)
            &&& b.id == pre.dht.successor.min_spec()
            &&& b.handler == msg.handler
            &&& relay.method is REPORT
            &&& relay.path@ == ctx.relay.path@.push(pre.dht.did)
            &&& relay.destination == ctx.relay.path@[0]
        })
        &&& (!local ==> {
            &&& effs@[0] matches Effect::Forward { relay }
            &&& relay.method is SEND
            &&& relay.path@ == ctx.relay.path@.push(pre.dht.did)
            &&& relay.next_hop == Option::Some(hop)
            &&& (msg.strict ==> relay.destination == hop)
            &&& (!msg.strict ==> relay.destination == ctx.relay.destination)
        })
    }))
}

/// What handling `NotifyPredecessorSend` guarantees: the notifier is
/// adopted as predecessor when it qualifies, and this node's own id is
/// reported back along the reversed path.
pub open spec fn notify_predecessor_send_handled(
    pre: MessageHandler,
    post: MessageHandler,
    ctx: MessagePayload,
    msg: NotifyPredecessorSend,
    r: Result<Vec<Effect>, Error>,
) -> bool {
    &&& post.wf()
    &&& post.transports == pre.transports
    &&& post.dht.did == pre.dht.did
    &&& post.dht.successor == pre.dht.successor
    &&& post.dht.finger == pre.dht.finger
    &&& post.dht.storage == pre.dht.storage
    &&& post.dht.fix_finger_index == pre.dht.fix_finger_index
    &&& post.dht.predecessor == crate::ring::notified_predecessor(
        pre.dht.predecessor,
        pre.dht.did,
        msg.id,
    )
    &&& (r is Ok <==> ctx.relay.method is SEND && ctx.relay.wf())
    &&& (r matches Ok(effs) ==> {
        &&& effs@.len() == 1
        &&& effs@[0] matches Effect::SendReport { relay, message }
        &&& message matches Message::NotifyPredecessorReport(b)
        &&& b.id == pre.dht.did
        &&& relay.method is REPORT
        &&& relay.path@ == ctx.relay.path@.push(pre.dht.did)
        &&& relay.destination == ctx.relay.path@[0]
    })
}

/// What consuming a successor answer (`FindSuccessorReport`) guarantees
/// at its asker: an unknown answering peer triggers a connect flow; a
/// finger answer fills exactly the entry under the cursor; a successor
/// answer is adopted, and exactly when the immediate successor changed,
/// the values now belonging to it are migrated — and nothing else is
/// sent.
pub open spec fn find_successor_report_handled(
    pre: MessageHandler,
    post: MessageHandler,
    ctx: MessagePayload,
    msg: FindSuccessorReport,
    r: Result<Vec<Effect>, Error>,
) -> bool {
    let updated = crate::successor::updated_successors(
        pre.dht.did,
        pre.dht.successor.cap as nat,
        pre.dht.successor.successors@,
        msg.id,
    );
    let old_min = pre.dht.successor.min_spec();
    let new_min = if updated.len() == 0 {
        pre.dht.did
    } else {
        updated[0]
    };
    let connects = if !pre.transports.connected@.contains(msg.id) && msg.id != pre.dht.did {
        1int
    } else {
        0int
    };
    let syncs = if msg.handler is SyncSuccessor && old_min != new_min {
        1int
    } else {
        0int
    };
    &&& post.wf()
    &&& post.dht.did == pre.dht.did
    &&& post.dht.predecessor == pre.dht.predecessor
    &&& post.transports == pre.transports
    &&& (r is Ok <==> relay_step_ok(ctx))
    &&& (r is Err ==> post == pre && r == Result::<Vec<Effect>, Error>::Err(
        Error::InvalidPayload,
    ))
    &&& (r matches Ok(effs) ==> ({
        &&& (!relay_terminal(ctx) ==> post.dht == pre.dht && effs@.len() == 1 && (
        effs@[0] matches Effect::Forward { relay } && relay.method is REPORT
            && relay.path@ == ctx.relay.path@ && relay.path_end_cursor
            == ctx.relay.path_end_cursor + 1))
        &&& (relay_terminal(ctx) ==> {
            &&& effs@.len() == connects + syncs
            &&& (connects == 1 ==> (effs@[0] matches Effect::ConnectTo { target } && target
                == msg.id))
            &&& (msg.handler is FixFingerTable ==> {
                &&& post.dht.finger@ == pre.dht.finger@.update(
                    pre.dht.fix_finger_index as int,
                    Option::Some(msg.id),
                )
                &&& post.dht.fix_finger_index == (pre.dht.fix_finger_index + 1) % 160
                &&& post.dht.successor == pre.dht.successor
                &&& post.dht.storage == pre.dht.storage
            })
            &&& (msg.handler is SyncSuccessor ==> {
                &&& post.dht.successor.successors@ == updated
                &&& post.dht.finger == pre.dht.finger
                &&& post.dht.fix_finger_index == pre.dht.fix_finger_index
                &&& (old_min == new_min ==> post.dht.storage == pre.dht.storage)
                &&& (old_min != new_min ==> {
                    &&& post.dht.storage@ == crate::ring::kept_values(
                        pre.dht.storage@,
                        pre.dht.did,
                        new_min,
                    )
                    &&& effs@.last() matches Effect::SendMessage {
                        next_hop,
                        destination,
                        message,
                    }
                    &&& next_hop == new_min
                    &&& destination == new_min
                    &&& message matches Message::SyncVNodeWithSuccessor(b)
                    &&& b.data@ == crate::ring::moved_values(
                        pre.dht.storage@,
                        pre.dht.did,
                        new_min,
                    )
                })
            })
        })
    }))
}

/// What consuming a `NotifyPredecessorReport` guarantees: only backward
/// payloads qualify; the answering successor is adopted, and exactly when
/// the immediate successor changed, the values now belonging to it are
/// migrated — and nothing else is sent.
pub open spec fn notify_predecessor_report_handled(
    pre: MessageHandler,
    post: MessageHandler,
    ctx: MessagePayload,
    msg: NotifyPredecessorReport,
    r: Result<Vec<Effect>, Error>,
) -> bool {
    let updated = crate::successor::updated_successors(
        pre.dht.did,
        pre.dht.successor.cap as nat,
        pre.dht.successor.successors@,
        msg.id,
    );
    let old_min = pre.dht.successor.min_spec();
    let new_min = if updated.len() == 0 {
        pre.dht.did
    } else {
        updated[0]
    };
    &&& post.wf()
    &&& post.dht.did == pre.dht.did
    &&& post.dht.predecessor == pre.dht.predecessor
    &&& post.dht.finger == pre.dht.finger
    &&& post.dht.fix_finger_index == pre.dht.fix_finger_index
    &&& post.transports == pre.transports
    &&& (r is Ok <==> ctx.relay.method is REPORT && relay_step_ok(ctx))
    &&& (r is Err ==> post == pre && r == Result::<Vec<Effect>, Error>::Err(
        Error::InvalidPayload,
    ))
    &&& (r matches Ok(effs) ==> ({
        &&& post.dht.successor.successors@ == updated
        &&& (old_min == new_min ==> post.dht.storage == pre.dht.storage && effs@.len() == 0)
        &&& (old_min != new_min ==> {
            &&& post.dht.storage@ == crate::ring::kept_values(
                pre.dht.storage@,
                pre.dht.did,
                new_min,
            )
            &&& effs@.len() == 1
            &&& effs@[0] matches Effect::SendMessage { next_hop, destination, message }
            &&& next_hop == new_min
            &&& destination == new_min
            &&& message matches Message::SyncVNodeWithSuccessor(b)
            &&& b.data@ == crate::ring::moved_values(pre.dht.storage@, pre.dht.did, new_min)
        })
    }))
}

/// What handling `SearchVNode` guarantees: the value held here is
/// reported back; a key this region answers for but does not hold yields
/// an empty find; anything else is routed onwards.
pub open spec fn search_vnode_handled(
    pre: MessageHandler,
    post: MessageHandler,
    ctx: MessagePayload,
    msg: SearchVNode,
    r: Result<Vec<Effect>, Error>,
) -> bool {
    let held = pre.dht.stores_spec(msg.id);
    let hop = closest_preceding_from(pre.dht.did, pre.dht.finger@, msg.id, 160);
    let local = pre.dht.answers_locally(msg.id) || hop == pre.dht.did;
    &&& post.wf()
    &&& post.dht == pre.dht
    &&& post.transports == pre.transports
    &&& (r is Ok <==> ctx.relay.method is SEND && ctx.relay.wf())
    &&& (r is Err ==> r == Result::<Vec<Effect>, Error>::Err(Error::InvalidPayload))
    &&& (r matches Ok(effs) ==> ({
        &&& effs@.len() == 1
        &&& (held ==> (effs@[0] matches Effect::SendReport { relay, message } && (
        message matches Message::FoundVNode(b) && b.data@.len() == 1 && b.data@[0].did
            == msg.id && relay.method is REPORT && relay.destination == ctx.relay.path@[0])))
        &&& (!held && local ==> (effs@[0] matches Effect::SendReport { relay, message } && (
        message matches Message::FoundVNode(b) && b.data@.len() == 0 && relay.method
            is REPORT && relay.destination == ctx.relay.path@[0])))
        &&& (!held && !local ==> (effs@[0] matches Effect::Forward { relay }
            && relay.method is SEND && relay.path@ == ctx.relay.path@.push(pre.dht.did)
            && relay.next_hop == Option::Some(hop)))
    }))
}

/// What consuming a `FoundVNode` guarantees: carried backwards while path
/// remains; at the asker the found values are handed out, verbatim.
pub open spec fn found_vnode_handled(
    pre: MessageHandler,
    post: MessageHandler,
    ctx: MessagePayload,
    msg: FoundVNode,
    r: Result<Vec<Effect>, Error>,
) -> bool {
    &&& post.wf()
    &&& post.dht == pre.dht
    &&& post.transports == pre.transports
    &&& (r is Ok <==> relay_step_ok(ctx))
    &&& (r is Err ==> r == Result::<Vec<Effect>, Error>::Err(Error::InvalidPayload))
    &&& (r matches Ok(effs) ==> ({
        &&& effs@.len() == 1
        &&& (!relay_terminal(ctx) ==> (effs@[0] matches Effect::Forward { relay }
            && relay.path_end_cursor == ctx.relay.path_end_cursor + 1))
        &&& (relay_terminal(ctx) ==> (effs@[0] matches Effect::FoundValues { data }
            && data.deep_view() == msg.data.deep_view()))
    }))
}

/// What handling `StoreVNode` guarantees: values whose first key this
/// node answers for are all stored; otherwise the whole message is routed
/// onwards; an empty message does nothing.
pub open spec fn store_vnode_handled(
    pre: MessageHandler,
    post: MessageHandler,
    ctx: MessagePayload,
    msg: StoreVNode,
    r: Result<Vec<Effect>, Error>,
) -> bool {
    let in_reach = msg.data@.len() > 0 && pre.dht.answers_locally(msg.data@[0].did);
    let hop = if msg.data@.len() > 0 {
        closest_preceding_from(pre.dht.did, pre.dht.finger@, msg.data@[0].did, 160)
    } else {
        pre.dht.did
    };
    let next = if hop == pre.dht.did {
        pre.dht.successor.min_spec()
    } else {
        hop
    };
    &&& post.wf()
    &&& post.dht.did == pre.dht.did
    &&& post.transports == pre.transports
    &&& (msg.data@.len() == 0 ==> post == pre && (r matches Ok(effs) && effs@.len() == 0))
    &&& (in_reach ==> (r matches Ok(effs) && effs@.len() == 0))
    &&& (in_reach ==> forall|j: int|
        0 <= j < msg.data@.len() ==> post.dht.stores_spec(#[trigger] msg.data@[j].did))
    &&& (msg.data@.len() > 0 && !in_reach ==> {
        &&& post.dht == pre.dht
        &&& (r is Ok <==> ctx.relay.method is SEND && ctx.relay.wf())
        &&& (r is Err ==> r == Result::<Vec<Effect>, Error>::Err(Error::InvalidPayload))
        &&& (r matches Ok(effs) ==> {
            &&& effs@.len() == 1
            &&& effs@[0] matches Effect::Forward { relay }
            &&& relay.method is SEND
            &&& relay.path@ == ctx.relay.path@.push(pre.dht.did)
            &&& relay.next_hop == Option::Some(next)
            &&& relay.destination == ctx.relay.destination
        })
    })
}

/// A field-for-field copy of a relay header.
pub fn clone_relay(r: &MessageRelay) -> (c: MessageRelay)
    ensures
        c.method == r.method,
        c.path@ == r.path@,
        c.path_end_cursor == r.path_end_cursor,
        c.next_hop == r.next_hop,
        c.destination == r.destination,
{
    let mut path: Vec<Did> = Vec::new();
    let mut i: usize = 0;
    while i < r.path.len()
        invariant
            i <= r.path@.len(),
            path@ =~= r.path@.subrange(0, i as int),
        decreases r.path@.len() - i,
    {
        path.push(r.path[i]);
        proof {
            assert(path@ =~= r.path@.subrange(0, i + 1));
        }
        i = i + 1;
    }
    proof {
        assert(path@ =~= r.path@);
    }
    MessageRelay {
        method: r.method,
        path,
        path_end_cursor: r.path_end_cursor,
        next_hop: r.next_hop,
        destination: r.destination,
    }
}

impl MessageHandler {
    /// Remove a departed peer from the ring state.
    pub fn handle_leave(&mut self, msg: &LeaveDHT) -> (r: Result<Vec<Effect>, Error>)
        requires
            old(self).wf(),
        ensures
            leave_handled(*old(self), *final(self), *msg, r),
    {
        self.dht.remove(msg.id);
        Result::Ok(Vec::new())
    }

    /// Admit a joining peer; when routing is needed and the chosen hop is
    /// not the payload's sender, ask that hop to find the joiner's
    /// successor. The sender guard breaks the two-node mutual-join cycle.
    pub fn handle_join(&mut self, ctx: &MessagePayload, msg: &JoinDHT) -> (r: Result<
        Vec<Effect>,
        Error,
    >)
        requires
            old(self).wf(),
        ensures
            join_handled(*old(self), *final(self), *ctx, *msg, r),
    {
        let act = self.dht.join(msg.id);
        match act {
            PeerRingAction::RemoteAction(next, PeerRingRemoteAction::FindSuccessor(id)) => {
                let sender = ctx.sender();
                let guarded = match sender {
                    Option::Some(s) => next != s,
                    Option::None => true,
                };
                if guarded {
                    let eff = Effect::SendMessage {
                        next_hop: next,
                        destination: next,
                        message: Message::FindSuccessorSend(
                            FindSuccessorSend {
                                id,
                                handler: FindSuccessorThen::SyncSuccessor,
                                strict: false,
                            },
                        ),
                    };
                    let mut effs: Vec<Effect> = Vec::new();
                    effs.push(eff);
                    Result::Ok(effs)
                } else {
                    Result::Ok(Vec::new())
                }
            },
            _ => Result::Ok(Vec::new()),
        }
    }

    /// Route a connection offer towards its target; at the target, answer
    /// it or report the transport that already exists.
    pub fn handle_connect_node_send(&mut self, ctx: &MessagePayload, msg: &ConnectNodeSend) -> (r:
        Result<Vec<Effect>, Error>)
        requires
            old(self).wf(),
        ensures
            connect_node_send_handled(*old(self), *final(self), *ctx, *msg, r),
    {
        let mut relay = clone_relay(&ctx.relay);
        if self.dht.did != msg.target_id {
            let next = match self.dht.find_successor(msg.target_id) {
                PeerRingAction::Answer(n) => n,
                PeerRingAction::RemoteAction(n, _) => n,
                _ => {
                    return Result::Err(Error::RingUnexpectedAction);
                },
            };
            match relay.relay(self.dht.did, Option::Some(next)) {
                Result::Err(e) => Result::Err(e),
                Result::Ok(_) => {
                    let mut effs: Vec<Effect> = Vec::new();
                    effs.push(Effect::Forward { relay });
                    Result::Ok(effs)
                },
            }
        } else {
            match relay.relay(self.dht.did, Option::None) {
                Result::Err(e) => {
                    return Result::Err(e);
                },
                Result::Ok(_) => {},
            }
            let report = match relay.report() {
                Result::Err(e) => {
                    return Result::Err(e);
                },
                Result::Ok(rep) => rep,
            };
            let mut effs: Vec<Effect> = Vec::new();
            if !self.transports.contains(msg.sender_id) {
                effs.push(
                    Effect::AnswerOffer {
                        sender_id: msg.sender_id,
                        transport_uuid: clone_bytes(&msg.transport_uuid),
                        handshake_info: clone_bytes(&msg.handshake_info),
                        relay: report,
                    },
                );
            } else {
                effs.push(
                    Effect::SendReport {
                        relay: report,
                        message: Message::AlreadyConnected(
                            AlreadyConnected { answer_id: self.dht.did },
                        ),
                    },
                );
            }
            Result::Ok(effs)
        }
    }

    /// Build the report answering a connection offer, once the shell has
    /// produced the answering handshake; the offering peer is recorded as
    /// connected.
    pub fn make_connect_node_report(
        &mut self,
        sender_id: Did,
        relay: MessageRelay,
        transport_uuid: Vec<u8>,
        handshake_info: Vec<u8>,
    ) -> (r: Effect)
        requires
            old(self).wf(),
        ensures
            final(self).wf(),
            final(self).dht == old(self).dht,
            final(self).transports.pending == old(self).transports.pending,
            old(self).transports.connected@.contains(sender_id)
                ==> final(self).transports.connected == old(self).transports.connected,
            !old(self).transports.connected@.contains(sender_id)
                ==> final(self).transports.connected@ == old(self).transports.connected@.push(
                sender_id,
            ),
            ({
                &&& r matches Effect::SendReport { relay: rel, message }
                &&& rel == relay
                &&& message matches Message::ConnectNodeReport(b)
                &&& b.answer_id == old(self).dht.did
                &&& b.transport_uuid@ == transport_uuid@
                &&& b.handshake_info@ == handshake_info@
            }),
    {
        self.transports.register(sender_id);
        Effect::SendReport {
            relay,
            message: Message::ConnectNodeReport(
                ConnectNodeReport { answer_id: self.dht.did, transport_uuid, handshake_info },
            ),
        }
    }

    /// Carry a connection answer backwards; at the offering peer, install
    /// it on the pending transport and promote the connection.
    pub fn handle_connect_node_report(
        &mut self,
        ctx: &MessagePayload,
        msg: &ConnectNodeReport,
    ) -> (r: Result<Vec<Effect>, Error>)
        requires
            old(self).wf(),
        ensures
            connect_node_report_handled(*old(self), *final(self), *ctx, *msg, r),
    {
        let mut relay = clone_relay(&ctx.relay);
        match relay.relay(self.dht.did, Option::None) {
            Result::Err(e) => {
                return Result::Err(e);
            },
            Result::Ok(_) => {},
        }
        let mut effs: Vec<Effect> = Vec::new();
        match relay.next_hop {
            Option::Some(_) => {
                proof {
                    assert(!(ctx.relay.method is SEND));
                    assert(crate::relay::report_next(
                        ctx.relay.path@,
                        ctx.relay.path_end_cursor + 1,
                    ) is Some);
                }
                effs.push(Effect::Forward { relay });
                Result::Ok(effs)
            },
            Option::None => {
                if !self.transports.pop_pending(&msg.transport_uuid) {
                    return Result::Err(Error::PendingTransportMissing);
                }
                let ghost pre = self.transports.connected@;
                self.transports.register(msg.answer_id);
                proof {
                    if !pre.contains(msg.answer_id) {
                        assert(self.transports.connected@[pre.len() as int] == msg.answer_id);
                    }
                    assert(self.transports.connected@.contains(msg.answer_id));
                }
                effs.push(
                    Effect::InstallAnswer {
                        answer_id: msg.answer_id,
                        transport_uuid: clone_bytes(&msg.transport_uuid),
                        handshake_info: clone_bytes(&msg.handshake_info),
                    },
                );
                Result::Ok(effs)
            },
        }
    }

    /// Carry an already-connected notice backwards; at the offering peer,
    /// check that the transport indeed exists.
    pub fn handle_already_connected(&mut self, ctx: &MessagePayload, msg: &AlreadyConnected) -> (r:
        Result<Vec<Effect>, Error>)
        requires
            old(self).wf(),
        ensures
            already_connected_handled(*old(self), *final(self), *ctx, *msg, r),
    {
        let mut relay = clone_relay(&ctx.relay);
        match relay.relay(self.dht.did, Option::None) {
            Result::Err(e) => {
                return Result::Err(e);
            },
            Result::Ok(_) => {},
        }
        let mut effs: Vec<Effect> = Vec::new();
        match relay.next_hop {
            Option::Some(_) => {
                effs.push(Effect::Forward { relay });
                Result::Ok(effs)
            },
            Option::None => {
                if self.transports.contains(msg.answer_id) {
                    Result::Ok(effs)
                } else {
                    Result::Err(Error::TransportNotFound)
                }
            },
        }
    }

    /// Answer a successor lookup locally, or route it onwards — under a
    /// strict lookup the destination is rewritten to the chosen hop.
    pub fn handle_find_successor_send(
        &mut self,
        ctx: &MessagePayload,
        msg: &FindSuccessorSend,
    ) -> (r: Result<Vec<Effect>, Error>)
        requires
            old(self).wf(),
        ensures
            find_successor_send_handled(*old(self), *final(self), *ctx, *msg, r),
    {
        let mut relay = clone_relay(&ctx.relay);
        match self.dht.find_successor(msg.id) {
            PeerRingAction::Answer(id) => {
                match relay.relay(self.dht.did, Option::None) {
                    Result::Err(e) => {
                        return Result::Err(e);
                    },
                    Result::Ok(_) => {},
                }
                let report = match relay.report() {
                    Result::Err(e) => {
                        return Result::Err(e);
                    },
                    Result::Ok(rep) => rep,
                };
                let mut effs: Vec<Effect> = Vec::new();
                effs.push(
                    Effect::SendReport {
                        relay: report,
                        message: Message::FindSuccessorReport(
                            FindSuccessorReport { id, handler: msg.handler },
                        ),
                    },
                );
                Result::Ok(effs)
            },
            PeerRingAction::RemoteAction(next, _) => {
                match relay.relay(self.dht.did, Option::Some(next)) {
                    Result::Err(e) => {
                        return Result::Err(e);
                    },
                    Result::Ok(_) => {},
                }
                if msg.strict {
                    match relay.reset_destination(next) {
                        Result::Err(e) => {
                            return Result::Err(e);
                        },
                        Result::Ok(_) => {},
                    }
                }
                let mut effs: Vec<Effect> = Vec::new();
                effs.push(Effect::Forward { relay });
                Result::Ok(effs)
            },
            _ => Result::Err(Error::RingUnexpectedAction),
        }
    }

    /// Consume a successor answer at its asker: connect to the unknown
    /// successor, and either fill the finger entry under the fix cursor
    /// or adopt the answer into the successor list, migrating stored
    /// values when the immediate successor changed.
    pub fn handle_find_successor_report(
        &mut self,
        ctx: &MessagePayload,
        msg: &FindSuccessorReport,
    ) -> (r: Result<Vec<Effect>, Error>)
        requires
            old(self).wf(),
        ensures
            find_successor_report_handled(*old(self), *final(self), *ctx, *msg, r),
    {
        let mut relay = clone_relay(&ctx.relay);
        match relay.relay(self.dht.did, Option::None) {
            Result::Err(e) => {
                return Result::Err(e);
            },
            Result::Ok(_) => {},
        }
        let mut effs: Vec<Effect> = Vec::new();
        match relay.next_hop {
            Option::Some(_) => {
                proof {
                    assert(!(ctx.relay.method is SEND));
                    assert(crate::relay::report_next(
                        ctx.relay.path@,
                        ctx.relay.path_end_cursor + 1,
                    ) is Some);
                }
                effs.push(Effect::Forward { relay });
                return Result::Ok(effs);
            },
            Option::None => {},
        }
        if !self.transports.contains(msg.id) && msg.id != self.dht.did {
            effs.push(Effect::ConnectTo { target: msg.id });
        }
        match msg.handler {
            FindSuccessorThen::FixFingerTable => {
                self.dht.set_fixed_finger(msg.id);
            },
            FindSuccessorThen::SyncSuccessor => {
                let old_min = self.dht.successor.min();
                self.dht.successor.update(msg.id);
                let new_min = self.dht.successor.min();
                if old_min != new_min {
                    match self.dht.sync_with_successor(new_min) {
                        PeerRingAction::RemoteAction(
                            next,
                            PeerRingRemoteAction::SyncVNodeWithSuccessor(data),
                        ) => {
                            effs.push(
                                Effect::SendMessage {
                                    next_hop: next,
                                    destination: next,
                                    message: Message::SyncVNodeWithSuccessor(
                                        SyncVNodeWithSuccessor { data },
                                    ),
                                },
                            );
                        },
                        _ => {
                            return Result::Err(Error::RingUnexpectedAction);
                        },
                    }
                }
            },
        }
        Result::Ok(effs)
    }

    /// Adopt the notifier as predecessor when it qualifies, and answer
    /// with our own identifier along the reversed path.
    pub fn handle_notify_predecessor_send(
        &mut self,
        ctx: &MessagePayload,
        msg: &NotifyPredecessorSend,
    ) -> (r: Result<Vec<Effect>, Error>)
        requires
            old(self).wf(),
        ensures
            notify_predecessor_send_handled(*old(self), *final(self), *ctx, *msg, r),
    {
        self.dht.notify(msg.id);
        let mut relay = clone_relay(&ctx.relay);
        match relay.relay(self.dht.did, Option::None) {
            Result::Err(e) => {
                return Result::Err(e);
            },
            Result::Ok(_) => {},
        }
        let report = match relay.report() {
            Result::Err(e) => {
                return Result::Err(e);
            },
            Result::Ok(rep) => rep,
        };
        let mut effs: Vec<Effect> = Vec::new();
        effs.push(
            Effect::SendReport {
                relay: report,
                message: Message::NotifyPredecessorReport(
                    NotifyPredecessorReport { id: self.dht.did },
                ),
            },
        );
        Result::Ok(effs)
    }

    /// Consume a notification answer: adopt the answering successor and
    /// migrate stored values when the immediate successor changed. Only
    /// backward payloads carry this message.
    pub fn handle_notify_predecessor_report(
        &mut self,
        ctx: &MessagePayload,
        msg: &NotifyPredecessorReport,
    ) -> (r: Result<Vec<Effect>, Error>)
        requires
            old(self).wf(),
        ensures
            notify_predecessor_report_handled(*old(self), *final(self), *ctx, *msg, r),
    {
        if !matches!(ctx.relay.method, RelayMethod::REPORT) {
            return Result::Err(Error::InvalidPayload);
        }
        let mut relay = clone_relay(&ctx.relay);
        match relay.relay(self.dht.did, Option::None) {
            Result::Err(e) => {
                return Result::Err(e);
            },
            Result::Ok(_) => {},
        }
        let mut effs: Vec<Effect> = Vec::new();
        let old_min = self.dht.successor.min();
        self.dht.successor.update(msg.id);
        let new_min = self.dht.successor.min();
        if old_min != new_min {
            match self.dht.sync_with_successor(new_min) {
                PeerRingAction::RemoteAction(
                    next,
                    PeerRingRemoteAction::SyncVNodeWithSuccessor(data),
                ) => {
                    effs.push(
                        Effect::SendMessage {
                            next_hop: next,
                            destination: next,
                            message: Message::SyncVNodeWithSuccessor(
                                SyncVNodeWithSuccessor { data },
                            ),
                        },
                    );
                },
                _ => {
                    return Result::Err(Error::RingUnexpectedAction);
                },
            }
        }
        Result::Ok(effs)
    }

    /// Look a key up: report the value held here, report an empty find
    /// when this region is responsible but holds nothing, or route the
    /// search onwards.
    pub fn handle_search_vnode(&mut self, ctx: &MessagePayload, msg: &SearchVNode) -> (r: Result<
        Vec<Effect>,
        Error,
    >)
        requires
            old(self).wf(),
        ensures
            search_vnode_handled(*old(self), *final(self), *ctx, *msg, r),
    {
        let mut relay = clone_relay(&ctx.relay);
        let held = match self.dht.lookup(msg.id) {
            Option::Some(v) => Option::Some(v.clone()),
            Option::None => Option::None,
        };
        let mut effs: Vec<Effect> = Vec::new();
        match held {
            Option::Some(v) => {
                match relay.relay(self.dht.did, Option::None) {
                    Result::Err(e) => {
                        return Result::Err(e);
                    },
                    Result::Ok(_) => {},
                }
                let report = match relay.report() {
                    Result::Err(e) => {
                        return Result::Err(e);
                    },
                    Result::Ok(rep) => rep,
                };
                let mut data: Vec<VirtualNode> = Vec::new();
                data.push(v);
                effs.push(
                    Effect::SendReport {
                        relay: report,
                        message: Message::FoundVNode(FoundVNode { data }),
                    },
                );
                Result::Ok(effs)
            },
            Option::None => {
                match self.dht.find_successor(msg.id) {
                    PeerRingAction::Answer(_) => {
                        match relay.relay(self.dht.did, Option::None) {
                            Result::Err(e) => {
                                return Result::Err(e);
                            },
                            Result::Ok(_) => {},
                        }
                        let report = match relay.report() {
                            Result::Err(e) => {
                                return Result::Err(e);
                            },
                            Result::Ok(rep) => rep,
                        };
                        effs.push(
                            Effect::SendReport {
                                relay: report,
                                message: Message::FoundVNode(FoundVNode { data: Vec::new() }),
                            },
                        );
                        Result::Ok(effs)
                    },
                    PeerRingAction::RemoteAction(next, _) => {
                        match relay.relay(self.dht.did, Option::Some(next)) {
                            Result::Err(e) => {
                                return Result::Err(e);
                            },
                            Result::Ok(_) => {},
                        }
                        effs.push(Effect::Forward { relay });
                        Result::Ok(effs)
                    },
                    _ => Result::Err(Error::RingUnexpectedAction),
                }
            },
        }
    }

    /// Found values arrive back at their asker, or are forwarded on.
    pub fn handle_found_vnode(&mut self, ctx: &MessagePayload, msg: &FoundVNode) -> (r: Result<
        Vec<Effect>,
        Error,
    >)
        requires
            old(self).wf(),
        ensures
            found_vnode_handled(*old(self), *final(self), *ctx, *msg, r),
    {
        let mut relay = clone_relay(&ctx.relay);
        match relay.relay(self.dht.did, Option::None) {
            Result::Err(e) => {
                return Result::Err(e);
            },
            Result::Ok(_) => {},
        }
        let mut effs: Vec<Effect> = Vec::new();
        match relay.next_hop {
            Option::Some(_) => {
                effs.push(Effect::Forward { relay });
            },
            Option::None => {
                let mut data: Vec<VirtualNode> = Vec::new();
                let mut i: usize = 0;
                while i < msg.data.len()
                    invariant
                        i <= msg.data@.len(),
                        data@.len() == i as int,
                        forall|j: int|
                            0 <= j < i ==> #[trigger] data@[j].deep_view()
                                == msg.data@[j].deep_view(),
                    decreases msg.data@.len() - i,
                {
                    let entry = msg.data[i].clone();
                    proof {
                        assert(entry.deep_view() == msg.data@[i as int].deep_view());
                    }
                    data.push(entry);
                    i = i + 1;
                }
                proof {
                    assert forall|j: int|
                        0 <= j < data.deep_view().len() implies data.deep_view()[j]
                        == msg.data.deep_view()[j] by {
                        assert(data@[j].deep_view() == msg.data@[j].deep_view());
                    };
                    assert(data.deep_view() =~= msg.data.deep_view());
                }
                effs.push(Effect::FoundValues { data });
            },
        }
        Result::Ok(effs)
    }

    /// Store values: keep those this node answers for, route the message
    /// onwards when the first key belongs elsewhere.
    pub fn handle_store_vnode(&mut self, ctx: &MessagePayload, msg: &StoreVNode) -> (r: Result<
        Vec<Effect>,
        Error,
    >)
        requires
            old(self).wf(),
        ensures
            store_vnode_handled(*old(self), *final(self), *ctx, *msg, r),
    {
        if msg.data.len() == 0 {
            return Result::Ok(Vec::new());
        }
        let first = msg.data[0].did;
        let d_first = crate::did::distance(&self.dht.did, &first);
        let far = self.dht.successor.max();
        let d_far = crate::did::distance(&self.dht.did, &far);
        if self.dht.successor.is_none() || d_first.le(&d_far) {
            let mut i: usize = 0;
            while i < msg.data.len()
                invariant
                    self.wf(),
                    self.dht.did == old(self).dht.did,
                    self.transports == old(self).transports,
                    i <= msg.data@.len(),
                    forall|j: int|
                        0 <= j < i ==> self.dht.stores_spec(#[trigger] msg.data@[j].did),
                decreases msg.data@.len() - i,
            {
                let entry = msg.data[i].clone();
                let ghost key = entry.did;
                let ghost ev = entry;
                let ghost pre = self.dht.storage@;
                self.dht.store(entry);
                proof {
                    assert(self.dht.stores_spec(key)) by {
                        if old_ring_stores(pre, key) {
                            let m = choose|m: int|
                                0 <= m < pre.len() && pre[m].did == key && self.dht.storage@
                                    == pre.update(m, ev);
                            assert(self.dht.storage@[m].did == key);
                        } else {
                            assert(self.dht.storage@.last() == ev);
                            assert(self.dht.storage@[self.dht.storage@.len() - 1].did == key);
                        }
                    };
                    assert forall|j: int|
                        0 <= j < i + 1 implies self.dht.stores_spec(
                        #[trigger] msg.data@[j].did,
                    ) by {
                        let x = msg.data@[j].did;
                        if j < i {
                            let k = choose|k: int| 0 <= k < pre.len() && pre[k].did == x;
                            assert(self.dht.storage@[k].did == x);
                        }
                    };
                }
                i = i + 1;
            }
            Result::Ok(Vec::new())
        } else {
            let mut relay = clone_relay(&ctx.relay);
            let next = match self.dht.find_successor(first) {
                PeerRingAction::Answer(n) => n,
                PeerRingAction::RemoteAction(n, _) => n,
                _ => {
                    return Result::Err(Error::RingUnexpectedAction);
                },
            };
            match relay.relay(self.dht.did, Option::Some(next)) {
                Result::Err(e) => {
                    return Result::Err(e);
                },
                Result::Ok(_) => {},
            }
            let mut effs: Vec<Effect> = Vec::new();
            effs.push(Effect::Forward { relay });
            Result::Ok(effs)
        }
    }

    /// Absorb values a predecessor hands over.
    pub fn handle_sync_vnode(&mut self, msg: &SyncVNodeWithSuccessor) -> (r: Result<
        Vec<Effect>,
        Error,
    >)
        requires
            old(self).wf(),
        ensures
            sync_vnode_handled(*old(self), *final(self), *msg, r),
    {
        let mut i: usize = 0;
        while i < msg.data.len()
            invariant
                self.wf(),
                self.dht.did == old(self).dht.did,
                self.dht.successor == old(self).dht.successor,
                self.dht.finger == old(self).dht.finger,
                self.dht.predecessor == old(self).dht.predecessor,
                self.dht.fix_finger_index == old(self).dht.fix_finger_index,
                self.transports == old(self).transports,
                i <= msg.data@.len(),
                forall|j: int|
                    0 <= j < i ==> self.dht.stores_spec(#[trigger] msg.data@[j].did),
            decreases msg.data@.len() - i,
        {
            let entry = msg.data[i].clone();
            let ghost key = entry.did;
            let ghost ev = entry;
            let ghost pre = self.dht.storage@;
            self.dht.store(entry);
            proof {
                assert(self.dht.stores_spec(key)) by {
                    if old_ring_stores(pre, key) {
                        let m = choose|m: int|
                            0 <= m < pre.len() && pre[m].did == key && self.dht.storage@
                                == pre.update(m, ev);
                        assert(self.dht.storage@[m].did == key);
                    } else {
                        assert(self.dht.storage@.last() == ev);
                        assert(self.dht.storage@[self.dht.storage@.len() - 1].did == key);
                    }
                };
                assert forall|j: int|
                    0 <= j < i + 1 implies self.dht.stores_spec(
                    #[trigger] msg.data@[j].did,
                ) by {
                    let x = msg.data@[j].did;
                    if j < i {
                        let k = choose|k: int| 0 <= k < pre.len() && pre[k].did == x;
                        assert(self.dht.storage@[k].did == x);
                    }
                };
            }
            i = i + 1;
        }
        Result::Ok(Vec::new())
    }

    /// Hand application bytes to the callback; the ring is untouched.
    pub fn handle_custom_message(&mut self, msg: &CustomMessage) -> (r: Result<Vec<Effect>, Error>)
        requires
            old(self).wf(),
        ensures
            final(self).wf(),
            custom_message_handled(*old(self), *final(self), *msg, r),
    {
        let mut effs: Vec<Effect> = Vec::new();
        effs.push(Effect::Deliver { data: clone_bytes(&msg.0) });
        Result::Ok(effs)
    }

    /// Dispatch one message by its variant.
    pub fn handle_message(&mut self, ctx: &MessagePayload, msg: &Message) -> (r: Result<
        Vec<Effect>,
        Error,
    >)
        requires
            old(self).wf(),
        ensures
            final(self).wf(),
            final(self).dht.did == old(self).dht.did,
            ((*msg) matches Message::JoinDHT(b) ==> join_handled(
                *old(self),
                *final(self),
                *ctx,
                b,
                r,
            )),
            ((*msg) matches Message::LeaveDHT(b) ==> leave_handled(*old(self), *final(self), b, r)),
            ((*msg) matches Message::ConnectNodeSend(b) ==> connect_node_send_handled(
                *old(self),
                *final(self),
                *ctx,
                b,
                r,
            )),
            ((*msg) matches Message::ConnectNodeReport(b) ==> connect_node_report_handled(
                *old(self),
                *final(self),
                *ctx,
                b,
                r,
            )),
            ((*msg) matches Message::AlreadyConnected(b) ==> already_connected_handled(
                *old(self),
                *final(self),
                *ctx,
                b,
                r,
            )),
            ((*msg) matches Message::FindSuccessorSend(b) ==> find_successor_send_handled(
                *old(self),
                *final(self),
                *ctx,
                b,
                r,
            )),
            ((*msg) matches Message::FindSuccessorReport(b) ==> find_successor_report_handled(
                *old(self),
                *final(self),
                *ctx,
                b,
                r,
            )),
            ((*msg) matches Message::NotifyPredecessorSend(b) ==> notify_predecessor_send_handled(
                *old(self),
                *final(self),
                *ctx,
                b,
                r,
            )),
            ((*msg) matches Message::NotifyPredecessorReport(b)
                ==> notify_predecessor_report_handled(*old(self), *final(self), *ctx, b, r)),
            ((*msg) matches Message::SearchVNode(b) ==> search_vnode_handled(
                *old(self),
                *final(self),
                *ctx,
                b,
                r,
            )),
            ((*msg) matches Message::FoundVNode(b) ==> found_vnode_handled(
                *old(self),
                *final(self),
                *ctx,
                b,
                r,
            )),
            ((*msg) matches Message::StoreVNode(b) ==> store_vnode_handled(
                *old(self),
                *final(self),
                *ctx,
                b,
                r,
            )),
            ((*msg) matches Message::SyncVNodeWithSuccessor(b) ==> sync_vnode_handled(
                *old(self),
                *final(self),
                b,
                r,
            )),
            ((*msg) matches Message::CustomMessage(b) ==> custom_message_handled(
                *old(self),
                *final(self),
                b,
                r,
            )),
            ((*msg) matches Message::MultiCall(b) ==> r is Ok),
        decreases *msg, 0int,
    {
        match msg {
            Message::JoinDHT(b) => self.handle_join(ctx, b),
            Message::LeaveDHT(b) => self.handle_leave(b),
            Message::ConnectNodeSend(b) => self.handle_connect_node_send(ctx, b),
            Message::ConnectNodeReport(b) => self.handle_connect_node_report(ctx, b),
            Message::AlreadyConnected(b) => self.handle_already_connected(ctx, b),
            Message::FindSuccessorSend(b) => self.handle_find_successor_send(ctx, b),
            Message::FindSuccessorReport(b) => self.handle_find_successor_report(ctx, b),
            Message::NotifyPredecessorSend(b) => self.handle_notify_predecessor_send(ctx, b),
            Message::NotifyPredecessorReport(b) => self.handle_notify_predecessor_report(ctx, b),
            Message::SearchVNode(b) => self.handle_search_vnode(ctx, b),
            Message::FoundVNode(b) => self.handle_found_vnode(ctx, b),
            Message::StoreVNode(b) => self.handle_store_vnode(ctx, b),
            Message::SyncVNodeWithSuccessor(b) => self.handle_sync_vnode(b),
            Message::CustomMessage(b) => self.handle_custom_message(b),
            Message::MultiCall(b) => self.handle_multi_call_inner(ctx, &b.messages),
        }
    }

    /// Handle each bundled message in order; one failure is isolated and
    /// does not halt the others.
    fn handle_multi_call_inner(&mut self, ctx: &MessagePayload, msgs: &Vec<Message>) -> (r: Result<
        Vec<Effect>,
        Error,
    >)
        requires
            old(self).wf(),
        ensures
            final(self).wf(),
            final(self).dht.did == old(self).dht.did,
            r is Ok,
        decreases *msgs, 1int,
    {
        let mut effs: Vec<Effect> = Vec::new();
        let mut i: usize = 0;
        while i < msgs.len()
            invariant
                self.wf(),
                self.dht.did == old(self).dht.did,
                i <= msgs@.len(),
            decreases msgs@.len() - i,
        {
            match self.handle_message(ctx, &msgs[i]) {
                Result::Ok(mut more) => {
                    effs.append(&mut more);
                },
                Result::Err(_) => {},
            }
            i = i + 1;
        }
        Result::Ok(effs)
    }

    /// Dispatch a whole payload: handle its body against the ring state.
    pub fn handle_payload(&mut self, ctx: &MessagePayload) -> (r: Result<Vec<Effect>, Error>)
        requires
            old(self).wf(),
        ensures
            final(self).wf(),
            final(self).dht.did == old(self).dht.did,
            (ctx.data matches Message::JoinDHT(b) ==> join_handled(
                *old(self),
                *final(self),
                *ctx,
                b,
                r,
            )),
            (ctx.data matches Message::LeaveDHT(b) ==> leave_handled(*old(self), *final(self), b, r)),
            (ctx.data matches Message::ConnectNodeSend(b) ==> connect_node_send_handled(
                *old(self),
                *final(self),
                *ctx,
                b,
                r,
            )),
            (ctx.data matches Message::ConnectNodeReport(b) ==> connect_node_report_handled(
                *old(self),
                *final(self),
                *ctx,
                b,
                r,
            )),
            (ctx.data matches Message::AlreadyConnected(b) ==> already_connected_handled(
                *old(self),
                *final(self),
                *ctx,
                b,
                r,
            )),
            (ctx.data matches Message::FindSuccessorSend(b) ==> find_successor_send_handled(
                *old(self),
                *final(self),
                *ctx,
                b,
                r,
            )),
            (ctx.data matches Message::FindSuccessorReport(b) ==> find_successor_report_handled(
                *old(self),
                *final(self),
                *ctx,
                b,
                r,
            )),
            (ctx.data matches Message::NotifyPredecessorSend(b) ==> notify_predecessor_send_handled(
                *old(self),
                *final(self),
                *ctx,
                b,
                r,
            )),
            (ctx.data matches Message::NotifyPredecessorReport(b)
                ==> notify_predecessor_report_handled(*old(self), *final(self), *ctx, b, r)),
            (ctx.data matches Message::SearchVNode(b) ==> search_vnode_handled(
                *old(self),
                *final(self),
                *ctx,
                b,
                r,
            )),
            (ctx.data matches Message::FoundVNode(b) ==> found_vnode_handled(
                *old(self),
                *final(self),
                *ctx,
                b,
                r,
            )),
            (ctx.data matches Message::StoreVNode(b) ==> store_vnode_handled(
                *old(self),
                *final(self),
                *ctx,
                b,
                r,
            )),
            (ctx.data matches Message::SyncVNodeWithSuccessor(b) ==> sync_vnode_handled(
                *old(self),
                *final(self),
                b,
                r,
            )),
            (ctx.data matches Message::CustomMessage(b) ==> custom_message_handled(
                *old(self),
                *final(self),
                b,
                r,
            )),
            (ctx.data matches Message::MultiCall(b) ==> r is Ok),
    {
        let data = &ctx.data;
        match data {
            Message::JoinDHT(b) => self.handle_join(ctx, b),
            Message::LeaveDHT(b) => self.handle_leave(b),
            Message::ConnectNodeSend(b) => self.handle_connect_node_send(ctx, b),
            Message::ConnectNodeReport(b) => self.handle_connect_node_report(ctx, b),
            Message::AlreadyConnected(b) => self.handle_already_connected(ctx, b),
            Message::FindSuccessorSend(b) => self.handle_find_successor_send(ctx, b),
            Message::FindSuccessorReport(b) => self.handle_find_successor_report(ctx, b),
            Message::NotifyPredecessorSend(b) => self.handle_notify_predecessor_send(ctx, b),
            Message::NotifyPredecessorReport(b) => self.handle_notify_predecessor_report(ctx, b),
            Message::SearchVNode(b) => self.handle_search_vnode(ctx, b),
            Message::FoundVNode(b) => self.handle_found_vnode(ctx, b),
            Message::StoreVNode(b) => self.handle_store_vnode(ctx, b),
            Message::SyncVNodeWithSuccessor(b) => self.handle_sync_vnode(b),
            Message::CustomMessage(b) => self.handle_custom_message(b),
            Message::MultiCall(b) => self.handle_multi_call_inner(ctx, &b.messages),
        }
    }

    /// Start a connect flow: the shell has allocated a pending transport
    /// and produced an offer; record it and author the offer message,
    /// routed via the farthest known successor.
    pub fn connect(&mut self, target: Did, transport_uuid: Vec<u8>, handshake_info: Vec<u8>) -> (r:
        Effect)
        requires
            old(self).wf(),
        ensures
            final(self).wf(),
            final(self).dht == old(self).dht,
            final(self).transports.connected == old(self).transports.connected,
            final(self).transports.pending@ == old(self).transports.pending@.push(transport_uuid),
            ({
                &&& r matches Effect::SendMessage { next_hop, destination, message }
                &&& next_hop == old(self).dht.successor.max_spec()
                &&& destination == target
                &&& message matches Message::ConnectNodeSend(b)
                &&& b.sender_id == old(self).dht.did
                &&& b.target_id == target
                &&& b.transport_uuid@ == transport_uuid@
                &&& b.handshake_info@ == handshake_info@
            }),
    {
        let next_hop = self.dht.successor.max();
        let uuid_copy = clone_bytes(&transport_uuid);
        self.transports.push_pending(transport_uuid);
        Effect::SendMessage {
            next_hop,
            destination: target,
            message: Message::ConnectNodeSend(
                ConnectNodeSend {
                    sender_id: self.dht.did,
                    target_id: target,
                    transport_uuid: uuid_copy,
                    handshake_info,
                },
            ),
        }
    }

    /// Drop a peer entirely: from the ring state and the transport model.
    pub fn disconnect(&mut self, did: Did)
        requires
            old(self).wf(),
        ensures
            final(self).wf(),
            final(self).dht.did == old(self).dht.did,
            final(self).dht.successor.successors@ == old(
                self,
            ).dht.successor.successors@.remove_value(did),
            final(self).dht.predecessor == (if old(self).dht.predecessor == Option::Some(did) {
                Option::<Did>::None
            } else {
                old(self).dht.predecessor
            }),
            final(self).dht.finger@.len() == old(self).dht.finger@.len(),
            forall|i: int|
                0 <= i < old(self).dht.finger@.len() ==> final(self).dht.finger@[i] == (if old(
                    self,
                ).dht.finger@[i] == Option::Some(did) {
                    Option::<Did>::None
                } else {
                    old(self).dht.finger@[i]
                }),
            final(self).dht.storage == old(self).dht.storage,
            final(self).dht.fix_finger_index == old(self).dht.fix_finger_index,
            final(self).transports.connected@ == old(self).transports.connected@.remove_value(
                did,
            ),
            final(self).transports.pending == old(self).transports.pending,
    {
        self.dht.remove(did);
        self.transports.remove(did);
    }
}

impl HandleMsg<JoinDHT> for MessageHandler {
    open spec fn handle_wf(&self) -> bool {
        self.wf()
    }

    fn handle(&mut self, ctx: &MessagePayload, msg: &JoinDHT) -> (r: Result<Vec<Effect>, Error>) {
        self.handle_join(ctx, msg)
    }
}

impl HandleMsg<LeaveDHT> for MessageHandler {
    open spec fn handle_wf(&self) -> bool {
        self.wf()
    }

    fn handle(&mut self, ctx: &MessagePayload, msg: &LeaveDHT) -> (r: Result<Vec<Effect>, Error>) {
        self.handle_leave(msg)
    }
}

impl HandleMsg<ConnectNodeSend> for MessageHandler {
    open spec fn handle_wf(&self) -> bool {
        self.wf()
    }

    fn handle(&mut self, ctx: &MessagePayload, msg: &ConnectNodeSend) -> (r: Result<
        Vec<Effect>,
        Error,
    >) {
        self.handle_connect_node_send(ctx, msg)
    }
}

impl HandleMsg<ConnectNodeReport> for MessageHandler {
    open spec fn handle_wf(&self) -> bool {
        self.wf()
    }

    fn handle(&mut self, ctx: &MessagePayload, msg: &ConnectNodeReport) -> (r: Result<
        Vec<Effect>,
        Error,
    >) {
        self.handle_connect_node_report(ctx, msg)
    }
}

impl HandleMsg<AlreadyConnected> for MessageHandler {
    open spec fn handle_wf(&self) -> bool {
        self.wf()
    }

    fn handle(&mut self, ctx: &MessagePayload, msg: &AlreadyConnected) -> (r: Result<
        Vec<Effect>,
        Error,
    >) {
        self.handle_already_connected(ctx, msg)
    }
}

impl HandleMsg<FindSuccessorSend> for MessageHandler {
    open spec fn handle_wf(&self) -> bool {
        self.wf()
    }

    fn handle(&mut self, ctx: &MessagePayload, msg: &FindSuccessorSend) -> (r: Result<
        Vec<Effect>,
        Error,
    >) {
        self.handle_find_successor_send(ctx, msg)
    }
}

impl HandleMsg<FindSuccessorReport> for MessageHandler {
    open spec fn handle_wf(&self) -> bool {
        self.wf()
    }

    fn handle(&mut self, ctx: &MessagePayload, msg: &FindSuccessorReport) -> (r: Result<
        Vec<Effect>,
        Error,
    >) {
        self.handle_find_successor_report(ctx, msg)
    }
}

impl HandleMsg<NotifyPredecessorSend> for MessageHandler {
    open spec fn handle_wf(&self) -> bool {
        self.wf()
    }

    fn handle(&mut self, ctx: &MessagePayload, msg: &NotifyPredecessorSend) -> (r: Result<
        Vec<Effect>,
        Error,
    >) {
        self.handle_notify_predecessor_send(ctx, msg)
    }
}

impl HandleMsg<NotifyPredecessorReport> for MessageHandler {
    open spec fn handle_wf(&self) -> bool {
        self.wf()
    }

    fn handle(&mut self, ctx: &MessagePayload, msg: &NotifyPredecessorReport) -> (r: Result<
        Vec<Effect>,
        Error,
    >) {
        self.handle_notify_predecessor_report(ctx, msg)
    }
}

impl HandleMsg<SearchVNode> for MessageHandler {
    open spec fn handle_wf(&self) -> bool {
        self.wf()
    }

    fn handle(&mut self, ctx: &MessagePayload, msg: &SearchVNode) -> (r: Result<
        Vec<Effect>,
        Error,
    >) {
        self.handle_search_vnode(ctx, msg)
    }
}

impl HandleMsg<FoundVNode> for MessageHandler {
    open spec fn handle_wf(&self) -> bool {
        self.wf()
    }

    fn handle(&mut self, ctx: &MessagePayload, msg: &FoundVNode) -> (r: Result<
        Vec<Effect>,
        Error,
    >) {
        self.handle_found_vnode(ctx, msg)
    }
}

impl HandleMsg<StoreVNode> for MessageHandler {
    open spec fn handle_wf(&self) -> bool {
        self.wf()
    }

    fn handle(&mut self, ctx: &MessagePayload, msg: &StoreVNode) -> (r: Result<
        Vec<Effect>,
        Error,
    >) {
        self.handle_store_vnode(ctx, msg)
    }
}

impl HandleMsg<SyncVNodeWithSuccessor> for MessageHandler {
    open spec fn handle_wf(&self) -> bool {
        self.wf()
    }

    fn handle(&mut self, ctx: &MessagePayload, msg: &SyncVNodeWithSuccessor) -> (r: Result<
        Vec<Effect>,
        Error,
    >) {
        self.handle_sync_vnode(msg)
    }
}

impl HandleMsg<CustomMessage> for MessageHandler {
    open spec fn handle_wf(&self) -> bool {
        self.wf()
    }

    fn handle(&mut self, ctx: &MessagePayload, msg: &CustomMessage) -> (r: Result<
        Vec<Effect>,
        Error,
    >) {
        self.handle_custom_message(msg)
    }
}

} // verus!
