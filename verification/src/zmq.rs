//! State machines of the identity-routed messaging layer.
//!
//! A client socket speaks the DEALER role: its identity is fixed at
//! construction, it sends bare payloads, and routing happens on the peer's
//! side. A server socket speaks the ROUTER role: every received message
//! carries the sender's identity as its leading frame, and a reply must be
//! addressed by prepending that identity. Both sides keep a FIFO buffer of
//! frames that arrived in one multi-frame message and are consumed one
//! `receive` at a time.
//!
//! The transport itself (connect, bind, the asynchronous send and receive)
//! is driven by the embedding layer; this module verifies everything the
//! sockets decide: message framing, buffering order, the retry rule for
//! codec noise, and cancellation.

use vstd::prelude::*;

verus! {

/// The number of milliseconds a synchronous caller waits for an
/// asynchronous socket operation before giving up on its result.
pub const DEFAULT_TIMEOUT_MS: u64 = 3000;

#[verifier::external_type_specification]
#[verifier::external_body]
pub struct ExZmqMessage(zeromq::ZmqMessage);

#[verifier::external_type_specification]
#[verifier::external_body]
pub struct ExBytes(bytes::Bytes);

/// The frames a wire message holds, front first.
pub uninterp spec fn msg_frames(m: zeromq::ZmqMessage) -> Seq<Seq<u8>>;

/// The bytes one frame holds.
pub uninterp spec fn bytes_content(b: bytes::Bytes) -> Seq<u8>;

/// Relies on zeromq's `From<Vec<u8>> for ZmqMessage`: the message holds
/// exactly one frame, the given payload.
#[verifier::external_body]
fn msg_from_payload(data: Vec<u8>) -> (m: zeromq::ZmqMessage)
    ensures
        msg_frames(m) == seq![data@],
{
    zeromq::ZmqMessage::from(data)
}

/// Relies on `ZmqMessage::push_back`: appends one frame at the back and
/// touches no other frame.
#[verifier::external_body]
fn msg_push_frame(m: &mut zeromq::ZmqMessage, data: Vec<u8>)
    ensures
        msg_frames(*final(m)) == msg_frames(*old(m)).push(data@),
{
    m.push_back(bytes::Bytes::from(data));
}

/// Relies on `ZmqMessage::into_vec`: the message's frames in order, front
/// first.
#[verifier::external_body]
fn msg_into_vec(m: zeromq::ZmqMessage) -> (r: Vec<bytes::Bytes>)
    ensures
        r@.len() == msg_frames(m).len(),
        forall|i: int|
            0 <= i < r@.len() ==> bytes_content(#[trigger] r@[i]) == msg_frames(m)[i],
{
    m.into_vec()
}

/// Relies on `<[u8]>::to_vec`, reached through the `Deref` of `Bytes`: a
/// copy of the frame's bytes.
#[verifier::external_body]
fn bytes_to_vec(b: &bytes::Bytes) -> (r: Vec<u8>)
    ensures
        r@ == bytes_content(*b),
{
    b.to_vec()
}

/// The views of a list of frames, in order.
pub open spec fn frame_views(frames: Seq<Vec<u8>>) -> Seq<Seq<u8>> {
    frames.map_values(|f: Vec<u8>| f@)
}

/// Split a wire message into its frames, front first.
pub fn frames_of(msg: zeromq::ZmqMessage) -> (r: Vec<Vec<u8>>)
    ensures
        frame_views(r@) == msg_frames(msg),
{
    let raw = msg_into_vec(msg);
    let mut r: Vec<Vec<u8>> = Vec::new();
    let mut i: usize = 0;
    while i < raw.len()
        invariant
            i <= raw@.len(),
            raw@.len() == msg_frames(msg).len(),
            forall|j: int|
                0 <= j < raw@.len() ==> bytes_content(#[trigger] raw@[j]) == msg_frames(msg)[j],
            r@.len() == i,
            forall|j: int| 0 <= j < i ==> (#[trigger] r@[j])@ == msg_frames(msg)[j],
        decreases raw@.len() - i,
    {
        r.push(bytes_to_vec(&raw[i]));
        i = i + 1;
    }
    proof {
        assert(frame_views(r@) =~= msg_frames(msg));
    }
    r
}

/// Build a wire message from a list of frames, front first. The list must
/// not be empty: the transport has no notion of a message without frames.
pub fn message_of(frames: Vec<Vec<u8>>) -> (r: zeromq::ZmqMessage)
    requires
        frames@.len() > 0,
    ensures
        msg_frames(r) == frame_views(frames@),
{
    let ghost all = frames@;
    let mut frames = frames;
    let first = frames.remove(0);
    let mut msg = msg_from_payload(first);
    assert(msg_frames(msg) =~= frame_views(all.subrange(0, 1)));
    let mut i: usize = 0;
    while i < frames.len()
        invariant
            i <= frames@.len(),
            all.len() == frames@.len() + 1,
            all.drop_first() == frames@,
            msg_frames(msg) =~= frame_views(all.subrange(0, i as int + 1)),
        decreases frames@.len() - i,
    {
        let ghost before = msg_frames(msg);
        let frame = clone_frame(&frames[i]);
        msg_push_frame(&mut msg, frame);
        proof {
            assert(all.subrange(0, i as int + 2) =~= all.subrange(0, i as int + 1).push(
                all[i as int + 1],
            ));
            assert(frame_views(all.subrange(0, i as int + 2)) =~= frame_views(
                all.subrange(0, i as int + 1),
            ).push(all[i as int + 1]@));
            assert(all[i as int + 1] == frames@[i as int]);
        }
        i = i + 1;
    }
    proof {
        assert(all.subrange(0, all.len() as int) =~= all);
    }
    msg
}

/// A copy of one frame.
fn clone_frame(f: &Vec<u8>) -> (r: Vec<u8>)
    ensures
        r@ == f@,
{
    let mut r: Vec<u8> = Vec::new();
    let mut i: usize = 0;
    while i < f.len()
        invariant
            i <= f@.len(),
            r@ == f@.subrange(0, i as int),
        decreases f@.len() - i,
    {
        r.push(f[i]);
        assert(f@.subrange(0, i as int + 1) =~= f@.subrange(0, i as int).push(f@[i as int]));
        i = i + 1;
    }
    proof {
        assert(f@.subrange(0, f@.len() as int) =~= f@);
    }
    r
}

/// How a receive loop reacts to the outcome of one transport receive.
#[derive(Debug, PartialEq, Eq, Clone, Copy, Structural)]
pub enum RecvControl {
    /// Codec noise, such as an unknown command from the peer: log and try
    /// the next transport receive.
    Retry,
    /// Any other transport error ends the operation and is propagated.
    Fail,
}

/// The retry rule of both receive loops: codec errors are non-fatal noise,
/// every other transport error propagates.
pub fn on_receive_error(is_codec_error: bool) -> (r: RecvControl)
    ensures
        r == (if is_codec_error {
            RecvControl::Retry
        } else {
            RecvControl::Fail
        }),
{
    if is_codec_error {
        RecvControl::Retry
    } else {
        RecvControl::Fail
    }
}

/// The DEALER-side socket state: a fixed identity, the connection flag,
/// and the FIFO of frames received but not yet consumed.
pub struct ClientSocket {
    identity: Vec<u8>,
    connected: bool,
    buffer: Vec<Vec<u8>>,
}

impl ClientSocket {
    /// The peer identity fixed at construction.
    pub closed spec fn identity(&self) -> Seq<u8> {
        self.identity@
    }

    /// Whether the transport-level connect has completed.
    pub closed spec fn is_connected(&self) -> bool {
        self.connected
    }

    /// The not-yet-consumed frames, front first.
    pub closed spec fn buffered(&self) -> Seq<Seq<u8>> {
        frame_views(self.buffer@)
    }

    /// A socket bound to the given identity, not yet connected, with
    /// nothing buffered.
    pub fn new(client_id: Vec<u8>) -> (r: Self)
        ensures
            r.identity() == client_id@,
            !r.is_connected(),
            r.buffered() == Seq::<Seq<u8>>::empty(),
    {
        let r = ClientSocket { identity: client_id, connected: false, buffer: Vec::new() };
        proof {
            assert(r.buffered() =~= Seq::<Seq<u8>>::empty());
        }
        r
    }

    /// Record that the transport-level connect succeeded.
    pub fn complete_connect(&mut self)
        ensures
            final(self).is_connected(),
            final(self).identity() == old(self).identity(),
            final(self).buffered() == old(self).buffered(),
    {
        self.connected = true;
    }

    /// Whether the transport-level connect has completed, for callers that
    /// must test `outgoing_message`'s precondition at run time.
    pub fn connected(&self) -> (r: bool)
        ensures
            r == self.is_connected(),
    {
        self.connected
    }

    /// The wire message for one `send`, which the socket only allows once
    /// it is connected: the bare payload in a single frame. The identity
    /// is not framed here — it was bound to the transport at construction,
    /// so the peer can route replies without a per-call handshake.
    pub fn outgoing_message(&self, data: Vec<u8>) -> (r: zeromq::ZmqMessage)
        requires
            self.is_connected(),
        ensures
            msg_frames(r) == seq![data@],
    {
        msg_from_payload(data)
    }

    /// Consume the front buffered frame, if any.
    pub fn pop_buffered(&mut self) -> (r: Option<Vec<u8>>)
        ensures
            final(self).identity() == old(self).identity(),
            final(self).is_connected() == old(self).is_connected(),
            old(self).buffered().len() == 0 ==> r is None && final(self).buffered() == old(
                self,
            ).buffered(),
            old(self).buffered().len() > 0 ==> {
                &&& r matches Some(f) && f@ == old(self).buffered()[0]
                &&& final(self).buffered() == old(self).buffered().drop_first()
            },
    {
        if self.buffer.len() == 0 {
            None
        } else {
            let f = self.buffer.remove(0);
            proof {
                assert(final(self).buffered() =~= old(self).buffered().drop_first());
            }
            Some(f)
        }
    }

    /// Split an arrived multi-frame message into the FIFO and consume the
    /// front frame. Frames keep their arrival order. A message without
    /// frames yields nothing and changes nothing.
    pub fn receive_message(&mut self, msg: zeromq::ZmqMessage) -> (r: Option<Vec<u8>>)
        ensures
            final(self).identity() == old(self).identity(),
            final(self).is_connected() == old(self).is_connected(),
            msg_frames(msg).len() == 0 ==> r is None && final(self).buffered() == old(
                self,
            ).buffered(),
            msg_frames(msg).len() > 0 ==> {
                let combined = old(self).buffered() + msg_frames(msg);
                &&& r matches Some(f) && f@ == combined[0]
                &&& final(self).buffered() == combined.drop_first()
            },
    {
        let mut frames = frames_of(msg);
        if frames.len() == 0 {
            return None;
        }
        self.buffer.append(&mut frames);
        proof {
            assert(self.buffered() =~= old(self).buffered() + msg_frames(msg));
        }
        let f = self.buffer.remove(0);
        proof {
            assert(final(self).buffered() =~= (old(self).buffered() + msg_frames(
                msg,
            )).drop_first());
        }
        Some(f)
    }
}

/// What a server receive does next, given the socket state alone.
pub enum ReceiveStep {
    /// A buffered frame was consumed and is delivered.
    Deliver(Vec<u8>),
    /// The socket is cancelled and nothing is buffered: the receive
    /// resolves with the distinguished cancelled outcome.
    Cancelled,
    /// Nothing is buffered: one transport receive must be raced against
    /// the cancellation signal.
    AwaitTransport,
}

/// The ROUTER-side socket state: the bind flag, the one-shot cancellation
/// flag, and the FIFO of frames received but not yet consumed. The first
/// frame of every arrived message is the sending client's identity;
/// identity and payload are handed out by two successive receives.
pub struct ServerSocket {
    bound: bool,
    cancelled: bool,
    buffer: Vec<Vec<u8>>,
}

impl ServerSocket {
    /// Whether the transport-level bind has completed.
    pub closed spec fn is_bound(&self) -> bool {
        self.bound
    }

    /// Whether the socket was cancelled. Once set, it never clears.
    pub closed spec fn is_cancelled(&self) -> bool {
        self.cancelled
    }

    /// The not-yet-consumed frames, front first.
    pub closed spec fn buffered(&self) -> Seq<Seq<u8>> {
        frame_views(self.buffer@)
    }

    /// A socket that is not bound and not cancelled, with nothing
    /// buffered.
    pub fn new() -> (r: Self)
        ensures
            !r.is_bound(),
            !r.is_cancelled(),
            r.buffered() == Seq::<Seq<u8>>::empty(),
    {
        let r = ServerSocket { bound: false, cancelled: false, buffer: Vec::new() };
        proof {
            assert(r.buffered() =~= Seq::<Seq<u8>>::empty());
        }
        r
    }

    /// Record that the transport-level bind succeeded.
    pub fn complete_bind(&mut self)
        ensures
            final(self).is_bound(),
            final(self).is_cancelled() == old(self).is_cancelled(),
            final(self).buffered() == old(self).buffered(),
    {
        self.bound = true;
    }

    /// Cancel the socket: every pending and every future receive resolves
    /// with the cancelled outcome once the buffer is drained. Idempotent —
    /// a second call changes nothing.
    pub fn cancel(&mut self)
        ensures
            final(self).is_cancelled(),
            final(self).is_bound() == old(self).is_bound(),
            final(self).buffered() == old(self).buffered(),
    {
        self.cancelled = true;
    }

    /// Decide one `receive`: a buffered frame wins, then cancellation,
    /// else the transport must be awaited.
    pub fn receive_step(&mut self) -> (r: ReceiveStep)
        ensures
            final(self).is_bound() == old(self).is_bound(),
            final(self).is_cancelled() == old(self).is_cancelled(),
            old(self).buffered().len() > 0 ==> {
                &&& r matches ReceiveStep::Deliver(f) && f@ == old(self).buffered()[0]
                &&& final(self).buffered() == old(self).buffered().drop_first()
            },
            old(self).buffered().len() == 0 && old(self).is_cancelled() ==> r
                is Cancelled && final(self).buffered() == old(self).buffered(),
            old(self).buffered().len() == 0 && !old(self).is_cancelled() ==> r
                is AwaitTransport && final(self).buffered() == old(self).buffered(),
    {
        if self.buffer.len() > 0 {
            let f = self.buffer.remove(0);
            proof {
                assert(final(self).buffered() =~= old(self).buffered().drop_first());
            }
            ReceiveStep::Deliver(f)
        } else if self.cancelled {
            ReceiveStep::Cancelled
        } else {
            ReceiveStep::AwaitTransport
        }
    }

    /// Split an arrived multi-frame message into the FIFO and consume the
    /// front frame, exactly as on the client side. For a ROUTER the front
    /// frame of a fresh message is the sender's identity.
    pub fn receive_message(&mut self, msg: zeromq::ZmqMessage) -> (r: Option<Vec<u8>>)
        ensures
            final(self).is_bound() == old(self).is_bound(),
            final(self).is_cancelled() == old(self).is_cancelled(),
            msg_frames(msg).len() == 0 ==> r is None && final(self).buffered() == old(
                self,
            ).buffered(),
            msg_frames(msg).len() > 0 ==> {
                let combined = old(self).buffered() + msg_frames(msg);
                &&& r matches Some(f) && f@ == combined[0]
                &&& final(self).buffered() == combined.drop_first()
            },
    {
        let mut frames = frames_of(msg);
        if frames.len() == 0 {
            return None;
        }
        self.buffer.append(&mut frames);
        proof {
            assert(self.buffered() =~= old(self).buffered() + msg_frames(msg));
        }
        let f = self.buffer.remove(0);
        proof {
            assert(final(self).buffered() =~= (old(self).buffered() + msg_frames(
                msg,
            )).drop_first());
        }
        Some(f)
    }

    /// The wire message for one reply: the destination identity frame,
    /// then the payload. The ROUTER consumes the identity frame to route
    /// the message, so the addressed client receives the payload alone.
    pub fn outgoing_message(&self, client_id: Vec<u8>, data: Vec<u8>) -> (r: zeromq::ZmqMessage)
        ensures
            msg_frames(r) == seq![client_id@, data@],
    {
        let mut msg = msg_from_payload(client_id);
        msg_push_frame(&mut msg, data);
        proof {
            assert(msg_frames(msg) =~= seq![client_id@, data@]);
        }
        msg
    }
}

/// Law: cancellation is idempotent. Two successive cancels leave the
/// socket in the same observable state as one.
pub proof fn lemma_cancel_idempotent(s0: ServerSocket, s1: ServerSocket, s2: ServerSocket)
    requires
        s1.is_cancelled(),
        s1.is_bound() == s0.is_bound(),
        s1.buffered() == s0.buffered(),
        s2.is_cancelled(),
        s2.is_bound() == s1.is_bound(),
        s2.buffered() == s1.buffered(),
    ensures
        s2.is_cancelled() == s1.is_cancelled(),
        s2.is_bound() == s1.is_bound(),
        s2.buffered() == s1.buffered(),
{
}

} // verus!
