//! Message bodies, the signed payload envelope, and their ghost views.
//!
//! The variant set is closed: dispatch is a match over the tag. Each
//! carrier type has a mathematical view — byte buffers become sequences —
//! and the wire codec is specified over those views.

use crate::did::Did;
use crate::relay::MessageRelay;
use crate::relay::RelayMethod;
use crate::vnode::VirtualNode;
use vstd::prelude::*;

verus! {

broadcast use vstd::std_specs::vec::axiom_vec_index_decreases;

/// Ask the receiver to admit the sender into its ring state.
#[derive(Debug)]
pub struct JoinDHT {
    /// The joining node.
    pub id: Did,
}

/// Announce that a node has left.
#[derive(Debug)]
pub struct LeaveDHT {
    /// The departed node.
    pub id: Did,
}

/// First leg of a transitive connection: an offer routed towards its
/// target.
#[derive(Debug)]
pub struct ConnectNodeSend {
    /// Who wants the connection.
    pub sender_id: Did,
    /// Who it should reach.
    pub target_id: Did,
    /// The offering side's pending-transport id.
    pub transport_uuid: Vec<u8>,
    /// The offer's handshake blob.
    pub handshake_info: Vec<u8>,
}

/// The answering leg, travelling the recorded path backwards.
#[derive(Debug)]
pub struct ConnectNodeReport {
    /// Who answered.
    pub answer_id: Did,
    /// The pending-transport id the answer belongs to.
    pub transport_uuid: Vec<u8>,
    /// The answer's handshake blob.
    pub handshake_info: Vec<u8>,
}

/// The target already holds a transport to the sender.
#[derive(Debug)]
pub struct AlreadyConnected {
    /// Who reported the existing connection.
    pub answer_id: Did,
}

/// What the asker will do with a successor answer.
#[derive(Clone, Copy, Debug, PartialEq, Eq, Structural)]
pub enum FindSuccessorThen {
    /// Update the successor list and synchronize stored values.
    SyncSuccessor,
    /// Fill the finger entry under the fix cursor.
    FixFingerTable,
}

/// Ask for the successor of an identifier.
#[derive(Debug)]
pub struct FindSuccessorSend {
    /// The identifier looked up.
    pub id: Did,
    /// What the asker does with the answer.
    pub handler: FindSuccessorThen,
    /// Whether intermediate hops rewrite the destination while routing.
    pub strict: bool,
}

/// The successor answer, travelling the recorded path backwards.
#[derive(Debug)]
pub struct FindSuccessorReport {
    /// The successor that was found.
    pub id: Did,
    /// Echo of what the asker does with it.
    pub handler: FindSuccessorThen,
}

/// Tell a successor that the sender believes it precedes it.
#[derive(Debug)]
pub struct NotifyPredecessorSend {
    /// The sender's identifier.
    pub id: Did,
}

/// The answer to a predecessor notification.
#[derive(Debug)]
pub struct NotifyPredecessorReport {
    /// The notified node's identifier.
    pub id: Did,
}

/// Look a stored value up by its key.
#[derive(Debug)]
pub struct SearchVNode {
    /// The key looked up.
    pub id: Did,
}

/// Values found for an earlier search.
#[derive(Debug)]
pub struct FoundVNode {
    /// The values found.
    pub data: Vec<VirtualNode>,
}

/// Store values at the responsible node.
#[derive(Debug)]
pub struct StoreVNode {
    /// The values to store.
    pub data: Vec<VirtualNode>,
}

/// Hand values over to the successor now responsible for them.
#[derive(Debug)]
pub struct SyncVNodeWithSuccessor {
    /// The migrating values.
    pub data: Vec<VirtualNode>,
}

/// An application-level message the overlay merely carries.
#[derive(Debug)]
pub struct CustomMessage(pub Vec<u8>);

/// Several messages under one origin verification; failures of one leave
/// the others untouched.
#[derive(Debug)]
pub struct MultiCall {
    /// The bundled messages.
    pub messages: Vec<Message>,
}

/// Every message the overlay knows how to dispatch.
#[derive(Debug)]
pub enum Message {
    /// See [`JoinDHT`].
    JoinDHT(JoinDHT),
    /// See [`LeaveDHT`].
    LeaveDHT(LeaveDHT),
    /// See [`ConnectNodeSend`].
    ConnectNodeSend(ConnectNodeSend),
    /// See [`ConnectNodeReport`].
    ConnectNodeReport(ConnectNodeReport),
    /// See [`AlreadyConnected`].
    AlreadyConnected(AlreadyConnected),
    /// See [`FindSuccessorSend`].
    FindSuccessorSend(FindSuccessorSend),
    /// See [`FindSuccessorReport`].
    FindSuccessorReport(FindSuccessorReport),
    /// See [`NotifyPredecessorSend`].
    NotifyPredecessorSend(NotifyPredecessorSend),
    /// See [`NotifyPredecessorReport`].
    NotifyPredecessorReport(NotifyPredecessorReport),
    /// See [`SearchVNode`].
    SearchVNode(SearchVNode),
    /// See [`FoundVNode`].
    FoundVNode(FoundVNode),
    /// See [`StoreVNode`].
    StoreVNode(StoreVNode),
    /// See [`SyncVNodeWithSuccessor`].
    SyncVNodeWithSuccessor(SyncVNodeWithSuccessor),
    /// See [`CustomMessage`].
    CustomMessage(CustomMessage),
    /// See [`MultiCall`].
    MultiCall(MultiCall),
}

/// Ghost view of a stored value.
pub struct VirtualNodeView {
    /// The key.
    pub did: Did,
    /// The bytes.
    pub data: Seq<u8>,
}

/// Ghost view of a message.
pub enum MessageView {
    /// View of [`JoinDHT`].
    JoinDHT { id: Did },
    /// View of [`LeaveDHT`].
    LeaveDHT { id: Did },
    /// View of [`ConnectNodeSend`].
    ConnectNodeSend {
        sender_id: Did,
        target_id: Did,
        transport_uuid: Seq<u8>,
        handshake_info: Seq<u8>,
    },
    /// View of [`ConnectNodeReport`].
    ConnectNodeReport { answer_id: Did, transport_uuid: Seq<u8>, handshake_info: Seq<u8> },
    /// View of [`AlreadyConnected`].
    AlreadyConnected { answer_id: Did },
    /// View of [`FindSuccessorSend`].
    FindSuccessorSend { id: Did, handler: FindSuccessorThen, strict: bool },
    /// View of [`FindSuccessorReport`].
    FindSuccessorReport { id: Did, handler: FindSuccessorThen },
    /// View of [`NotifyPredecessorSend`].
    NotifyPredecessorSend { id: Did },
    /// View of [`NotifyPredecessorReport`].
    NotifyPredecessorReport { id: Did },
    /// View of [`SearchVNode`].
    SearchVNode { id: Did },
    /// View of [`FoundVNode`].
    FoundVNode { data: Seq<VirtualNodeView> },
    /// View of [`StoreVNode`].
    StoreVNode { data: Seq<VirtualNodeView> },
    /// View of [`SyncVNodeWithSuccessor`].
    SyncVNodeWithSuccessor { data: Seq<VirtualNodeView> },
    /// View of [`CustomMessage`].
    CustomMessage { data: Seq<u8> },
    /// View of [`MultiCall`].
    MultiCall { messages: Seq<MessageView> },
}

impl DeepView for VirtualNode {
    type V = VirtualNodeView;

    open spec fn deep_view(&self) -> VirtualNodeView {
        VirtualNodeView { did: self.did, data: self.data@ }
    }
}

/// Views of the first `n` entries of a message bundle.
pub open spec fn messages_view(v: Vec<Message>, n: int) -> Seq<MessageView>
    decreases v, n,
{
    if 1 <= n <= v.len() {
        messages_view(v, n - 1).push(message_view(v[n - 1]))
    } else {
        Seq::empty()
    }
}

/// The view of a message, recursively through bundled messages.
pub open spec fn message_view(m: Message) -> MessageView
    decreases m, 0int,
{
    match m {
        Message::JoinDHT(b) => MessageView::JoinDHT { id: b.id },
        Message::LeaveDHT(b) => MessageView::LeaveDHT { id: b.id },
        Message::ConnectNodeSend(b) => MessageView::ConnectNodeSend {
            sender_id: b.sender_id,
            target_id: b.target_id,
            transport_uuid: b.transport_uuid@,
            handshake_info: b.handshake_info@,
        },
        Message::ConnectNodeReport(b) => MessageView::ConnectNodeReport {
            answer_id: b.answer_id,
            transport_uuid: b.transport_uuid@,
            handshake_info: b.handshake_info@,
        },
        Message::AlreadyConnected(b) => MessageView::AlreadyConnected { answer_id: b.answer_id },
        Message::FindSuccessorSend(b) => MessageView::FindSuccessorSend {
            id: b.id,
            handler: b.handler,
            strict: b.strict,
        },
        Message::FindSuccessorReport(b) => MessageView::FindSuccessorReport {
            id: b.id,
            handler: b.handler,
        },
        Message::NotifyPredecessorSend(b) => MessageView::NotifyPredecessorSend { id: b.id },
        Message::NotifyPredecessorReport(b) => MessageView::NotifyPredecessorReport { id: b.id },
        Message::SearchVNode(b) => MessageView::SearchVNode { id: b.id },
        Message::FoundVNode(b) => MessageView::FoundVNode { data: b.data.deep_view() },
        Message::StoreVNode(b) => MessageView::StoreVNode { data: b.data.deep_view() },
        Message::SyncVNodeWithSuccessor(b) => MessageView::SyncVNodeWithSuccessor {
            data: b.data.deep_view(),
        },
        Message::CustomMessage(b) => MessageView::CustomMessage { data: b.0@ },
        Message::MultiCall(b) => MessageView::MultiCall {
            messages: messages_view(b.messages, b.messages.len() as int),
        },
    }
}

impl DeepView for Message {
    type V = MessageView;

    open spec fn deep_view(&self) -> MessageView {
        message_view(*self)
    }
}

pub proof fn lemma_messages_view_len(v: Vec<Message>, n: int)
    requires
        0 <= n <= v.len(),
    ensures
        messages_view(v, n).len() == n,
    decreases n,
{
    if n > 0 {
        lemma_messages_view_len(v, n - 1);
    }
}

pub proof fn lemma_messages_view_index(v: Vec<Message>, n: int, i: int)
    requires
        0 <= i < n <= v.len(),
    ensures
        messages_view(v, n)[i] == message_view(v[i]),
    decreases n,
{
    lemma_messages_view_len(v, n - 1);
    if i < n - 1 {
        lemma_messages_view_index(v, n - 1, i);
    }
}

/// Bundles that agree on their first `n` entries have the same view of
/// those entries.
pub proof fn lemma_messages_view_agree(v1: Vec<Message>, v2: Vec<Message>, n: int)
    requires
        0 <= n <= v1.len(),
        n <= v2.len(),
        forall|j: int| 0 <= j < n ==> v1[j] == v2[j],
    ensures
        messages_view(v1, n) == messages_view(v2, n),
    decreases n,
{
    if n > 0 {
        lemma_messages_view_agree(v1, v2, n - 1);
    }
}

/// A signature together with the public key it verifies under.
#[derive(Debug)]
pub struct MessageVerification {
    /// The signature bytes.
    pub signature: Vec<u8>,
    /// The signer's public key bytes.
    pub pubkey: Vec<u8>,
}

/// Ghost view of a verification.
pub struct VerificationView {
    /// The signature bytes.
    pub signature: Seq<u8>,
    /// The signer's public key bytes.
    pub pubkey: Seq<u8>,
}

impl View for MessageVerification {
    type V = VerificationView;

    open spec fn view(&self) -> VerificationView {
        VerificationView { signature: self.signature@, pubkey: self.pubkey@ }
    }
}

/// Ghost view of a relay header.
pub struct RelayView {
    /// Outward or backward.
    pub method: RelayMethod,
    /// The recorded hops.
    pub path: Seq<Did>,
    /// Consumed tail length.
    pub path_end_cursor: usize,
    /// Next hop, if any.
    pub next_hop: Option<Did>,
    /// The routing target.
    pub destination: Did,
}

impl View for MessageRelay {
    type V = RelayView;

    open spec fn view(&self) -> RelayView {
        RelayView {
            method: self.method,
            path: self.path@,
            path_end_cursor: self.path_end_cursor,
            next_hop: self.next_hop,
            destination: self.destination,
        }
    }
}

/// The signed envelope every message travels in.
#[derive(Debug)]
pub struct MessagePayload {
    /// Unique transaction id, also the replay-protection key.
    pub tx_id: u128,
    /// The message body.
    pub data: Message,
    /// Signature of the original sender; stable across hops.
    pub origin_verification: MessageVerification,
    /// Signature of the latest forwarding hop; rewritten at each forward.
    pub verification: MessageVerification,
    /// The routing header.
    pub relay: MessageRelay,
}

/// Ghost view of a payload.
pub struct PayloadView {
    /// Transaction id.
    pub tx_id: u128,
    /// Message body view.
    pub data: MessageView,
    /// Origin signature view.
    pub origin_verification: VerificationView,
    /// Hop signature view.
    pub verification: VerificationView,
    /// Relay header view.
    pub relay: RelayView,
}

impl View for MessagePayload {
    type V = PayloadView;

    open spec fn view(&self) -> PayloadView {
        PayloadView {
            tx_id: self.tx_id,
            data: self.data.deep_view(),
            origin_verification: self.origin_verification@,
            verification: self.verification@,
            relay: self.relay@,
        }
    }
}

impl MessagePayload {
    /// The previous hop: the terminal element of the active path slice —
    /// outward payloads record each hop, backward ones consume the tail.
    pub open spec fn sender_spec(self) -> Did
        recommends
            self.relay.path_end_cursor < self.relay.path@.len(),
    {
        self.relay.path@[self.relay.path@.len() - 1 - self.relay.path_end_cursor]
    }

    /// The previous hop, while the header is well formed.
    pub fn sender(&self) -> (r: Option<Did>)
        ensures
            self.relay.path_end_cursor < self.relay.path@.len() ==> r == Option::Some(
                self.sender_spec(),
            ),
            self.relay.path_end_cursor >= self.relay.path@.len() ==> r is None,
    {
        let n = self.relay.path.len();
        if self.relay.path_end_cursor < n {
            Option::Some(self.relay.path[n - 1 - self.relay.path_end_cursor])
        } else {
            Option::None
        }
    }
}

impl Message {
    /// Wrap application bytes for carriage through the overlay.
    pub fn custom(bytes: &[u8]) -> (r: Message)
        ensures
            r.deep_view() == (MessageView::CustomMessage { data: bytes@ }),
    {
        Message::CustomMessage(CustomMessage(vstd::slice::slice_to_vec(bytes)))
    }
}

} // verus!
