//! How the bytes written to a tunnel stream become messages, and what a
//! write or a shutdown of such a stream reports.
use vstd::prelude::*;

use crate::pb::traffic_to_server::{action_code, action_of_code, Action};
use crate::server::http::joined;
use crate::pb::TrafficToServer;

verus! {

/// Wraps the bytes written to a tunnel stream, and its end, into the
/// messages of type `T` that the stream's channel carries.
pub trait WriteDataWrapper<T>: Send {
    /// `out` is the message that carries the written bytes `buf`.
    spec fn carries_write(&self, buf: Seq<u8>, out: T) -> bool;

    /// `out` is the message that ends the stream.
    spec fn carries_shutdown(&self, out: T) -> bool;

    /// The message that carries `buf`.
    fn wrap_write(&self, buf: &[u8]) -> (r: T)
        ensures
            self.carries_write(buf@, r),
    ;

    /// The message that ends the stream.
    fn wrap_shutdown(&self) -> (r: T)
        ensures
            self.carries_shutdown(r),
    ;
}

/// Wraps the traffic of one user connection into [`TrafficToServer`]
/// messages of that connection.
pub struct TrafficToServerWrapper {
    connection_id: String,
}

impl TrafficToServerWrapper {
    /// A wrapper for the connection `connection_id`.
    pub fn new(connection_id: String) -> (r: Box<Self>)
        ensures
            r.connection_id() == connection_id@,
    {
        Box::new(Self { connection_id })
    }

    /// The connection whose traffic this wrapper carries.
    pub closed spec fn connection_id(&self) -> Seq<char> {
        self.connection_id@
    }
}

/// Passes the written bytes on as they are; the end of the stream is an
/// empty buffer.
pub struct VecWrapper<T> {
    _phantom: std::marker::PhantomData<T>,
}

impl VecWrapper<Vec<u8>> {
    /// The wrapper for streams of raw bytes.
    pub fn new() -> Box<Self> {
        Box::new(Self { _phantom: std::marker::PhantomData })
    }
}

impl WriteDataWrapper<Vec<u8>> for VecWrapper<Vec<u8>> {
    open spec fn carries_write(&self, buf: Seq<u8>, out: Vec<u8>) -> bool {
        out@ == buf
    }

    open spec fn carries_shutdown(&self, out: Vec<u8>) -> bool {
        out@.len() == 0
    }

    fn wrap_write(&self, buf: &[u8]) -> (r: Vec<u8>) {
        vstd::slice::slice_to_vec(buf)
    }

    fn wrap_shutdown(&self) -> (r: Vec<u8>) {
        Vec::new()
    }
}

impl WriteDataWrapper<TrafficToServer> for TrafficToServerWrapper {
    open spec fn carries_write(&self, buf: Seq<u8>, out: TrafficToServer) -> bool {
        &&& out.connection_id@ == self.connection_id()
        &&& out.action == action_code(Action::Sending)
        &&& out.data@ == buf
    }

    open spec fn carries_shutdown(&self, out: TrafficToServer) -> bool {
        &&& out.connection_id@ == self.connection_id()
        &&& out.action == action_code(Action::Finished)
        &&& out.data@.len() == 0
    }

    fn wrap_write(&self, buf: &[u8]) -> (r: TrafficToServer) {
        TrafficToServer {
            connection_id: self.connection_id.clone(),
            action: Action::Sending.to_i32(),
            data: vstd::slice::slice_to_vec(buf),
        }
    }

    fn wrap_shutdown(&self) -> (r: TrafficToServer) {
        TrafficToServer {
            connection_id: self.connection_id.clone(),
            action: Action::Finished.to_i32(),
            data: Vec::new(),
        }
    }
}

/// The bytes that traffic messages carry, joined in order.
pub open spec fn carried_bytes(msgs: Seq<TrafficToServer>) -> Seq<u8>
    decreases msgs.len(),
{
    if msgs.len() == 0 {
        Seq::empty()
    } else {
        msgs[0].data@ + carried_bytes(msgs.drop_first())
    }
}

/// The messages carry the writes `bufs` in order, then the end.
pub open spec fn carries_writes_then_end(
    w: TrafficToServerWrapper,
    bufs: Seq<Seq<u8>>,
    msgs: Seq<TrafficToServer>,
) -> bool {
    &&& msgs.len() == bufs.len() + 1
    &&& forall|i: int| 0 <= i < bufs.len() ==> w.carries_write(#[trigger] bufs[i], msgs[i])
    &&& w.carries_shutdown(msgs[bufs.len() as int])
}

proof fn lemma_carried_bytes(w: TrafficToServerWrapper, bufs: Seq<Seq<u8>>, msgs: Seq<TrafficToServer>)
    requires
        carries_writes_then_end(w, bufs, msgs),
    ensures
        carried_bytes(msgs) == joined(bufs),
    decreases bufs.len(),
{
    if bufs.len() == 0 {
        assert(carried_bytes(msgs.drop_first()) == Seq::<u8>::empty());
        assert(carried_bytes(msgs) =~= Seq::<u8>::empty());
    } else {
        let (bt, mt) = (bufs.drop_first(), msgs.drop_first());
        assert(w.carries_write(bufs[0], msgs[0]));
        assert forall|i: int| 0 <= i < bt.len() implies w.carries_write(#[trigger] bt[i], mt[i]) by {
            assert(w.carries_write(bufs[i + 1], msgs[i + 1]));
        }
        assert(mt[bt.len() as int] == msgs[bufs.len() as int]);
        lemma_carried_bytes(w, bt, mt);
    }
}

/// Writes of a user connection followed by its shutdown reach the server
/// as exactly the bytes written, in order: every message is of that
/// connection, each write is one `Sending` message, and one `Finished`
/// message without data ends the stream.
pub proof fn lemma_writes_then_shutdown(
    w: TrafficToServerWrapper,
    bufs: Seq<Seq<u8>>,
    msgs: Seq<TrafficToServer>,
)
    requires
        carries_writes_then_end(w, bufs, msgs),
    ensures
        carried_bytes(msgs) == joined(bufs),
        forall|i: int| 0 <= i < msgs.len() ==> (#[trigger] msgs[i]).connection_id@ == w.connection_id(),
        forall|i: int|
            0 <= i < bufs.len() ==> action_of_code((#[trigger] msgs[i]).action as int) == Some(
                Action::Sending,
            ),
        action_of_code(msgs[bufs.len() as int].action as int) == Some(Action::Finished),
        msgs[bufs.len() as int].data@.len() == 0,
{
    lemma_carried_bytes(w, bufs, msgs);
    assert forall|i: int| 0 <= i < msgs.len() implies (#[trigger] msgs[i]).connection_id@
        == w.connection_id() by {
        if i < bufs.len() {
            assert(w.carries_write(bufs[i], msgs[i]));
        }
    }
    assert forall|i: int| 0 <= i < bufs.len() implies action_of_code(
        (#[trigger] msgs[i]).action as int,
    ) == Some(Action::Sending) by {
        assert(w.carries_write(bufs[i], msgs[i]));
    }
}

/// What a stream write asks of the channel.
#[derive(Clone, Copy, Debug, PartialEq, Eq, Structural)]
pub enum WritePlan {
    /// Nothing to send: the write completes with zero bytes.
    Nothing,
    /// Reserve a slot in the channel, then send the wrapped buffer.
    Send,
}

/// A write of an empty buffer completes at once; any other asks for a slot
/// in the channel.
pub fn plan_write(buf_len: usize) -> (r: WritePlan)
    ensures
        r == (if buf_len == 0 {
            WritePlan::Nothing
        } else {
            WritePlan::Send
        }),
{
    if buf_len == 0 {
        WritePlan::Nothing
    } else {
        WritePlan::Send
    }
}

/// The stream failed to hand the message to its channel.
#[derive(Clone, Copy, Debug, PartialEq, Eq, Structural)]
pub enum StreamFailure {
    /// The slot was reserved but the message could not be sent.
    SendFailed,
    /// No slot could be reserved because the channel is closed.
    Closed,
}

/// What a write of `len` bytes reports: an error only when a reserved slot
/// could not take the message.
pub open spec fn write_report(len: usize, reserved: bool, sent: bool) -> Result<usize, StreamFailure> {
    if reserved && !sent {
        Err(StreamFailure::SendFailed)
    } else {
        Ok(len)
    }
}

/// What a shutdown reports: closed when no slot could be reserved, failed
/// when the end could not be sent.
pub open spec fn shutdown_report(reserved: bool, sent: bool) -> Result<(), StreamFailure> {
    if !reserved {
        Err(StreamFailure::Closed)
    } else if !sent {
        Err(StreamFailure::SendFailed)
    } else {
        Ok(())
    }
}

/// What a write of `buf_len` bytes reports once the channel answered: the
/// whole buffer counts as written, also when no slot could be reserved (the
/// bytes are then dropped); only a failed send after a reservation is an
/// error.
pub fn finish_write(buf_len: usize, reserved: bool, sent: bool) -> (r: Result<usize, StreamFailure>)
    ensures
        r == write_report(buf_len, reserved, sent),
        reserved && !sent ==> r == Err::<usize, StreamFailure>(StreamFailure::SendFailed),
        !(reserved && !sent) ==> r == Ok::<usize, StreamFailure>(buf_len),
{
    if reserved && !sent {
        Err(StreamFailure::SendFailed)
    } else {
        Ok(buf_len)
    }
}

/// What a shutdown of the stream reports once the channel answered: it
/// succeeds only when the end message was reserved and sent.
pub fn finish_shutdown(reserved: bool, sent: bool) -> (r: Result<(), StreamFailure>)
    ensures
        r == shutdown_report(reserved, sent),
        !reserved ==> r == Err::<(), StreamFailure>(StreamFailure::Closed),
        reserved && !sent ==> r == Err::<(), StreamFailure>(StreamFailure::SendFailed),
        reserved && sent ==> r == Ok::<(), StreamFailure>(()),
{
    if !reserved {
        Err(StreamFailure::Closed)
    } else if !sent {
        Err(StreamFailure::SendFailed)
    } else {
        Ok(())
    }
}

/// A step on a stream as plain values: a write of some bytes, or the
/// shutdown, each with whether a slot was reserved and the message sent.
pub ghost enum StreamOp {
    Write(Seq<u8>, bool, bool),
    Shutdown(bool, bool),
}

/// What a step hands to the channel, if anything: the bytes of a write
/// that went out, or `None` for the end of the stream. An empty write asks
/// for no slot and hands over nothing.
pub open spec fn op_message(op: StreamOp) -> Option<Option<Seq<u8>>> {
    match op {
        StreamOp::Write(b, reserved, sent) => if b.len() > 0 && reserved && sent {
            Some(Some(b))
        } else {
            None
        },
        StreamOp::Shutdown(reserved, sent) => if reserved && sent {
            Some(None)
        } else {
            None
        },
    }
}

/// What the steps hand to the channel, in order.
pub open spec fn stream_messages(ops: Seq<StreamOp>) -> Seq<Option<Seq<u8>>>
    decreases ops.len(),
{
    if ops.len() == 0 {
        Seq::empty()
    } else {
        match op_message(ops[0]) {
            Some(m) => seq![m] + stream_messages(ops.drop_first()),
            None => stream_messages(ops.drop_first()),
        }
    }
}

/// The steps of writes of `bufs` and then a shutdown, all on an open
/// channel with a free slot.
pub open spec fn open_run(bufs: Seq<Seq<u8>>) -> Seq<StreamOp> {
    bufs.map_values(|b: Seq<u8>| StreamOp::Write(b, true, true)) + seq![StreamOp::Shutdown(true, true)]
}

/// Writes of nonempty buffers followed by a shutdown, on an open channel,
/// hand the channel every buffer in the order written and then the end, and
/// each step reports success; a shutdown on a closed channel reports it
/// closed and hands over nothing.
pub proof fn lemma_writes_reach_channel_in_order(bufs: Seq<Seq<u8>>)
    requires
        forall|i: int| 0 <= i < bufs.len() ==> (#[trigger] bufs[i]).len() > 0,
    ensures
        stream_messages(open_run(bufs)) == bufs.map_values(|b: Seq<u8>| Some(b)) + seq![
            None::<Seq<u8>>,
        ],
        forall|n: usize| #[trigger] write_report(n, true, true) == Ok::<usize, StreamFailure>(n),
        shutdown_report(true, true) == Ok::<(), StreamFailure>(()),
        forall|sent: bool| #[trigger] shutdown_report(false, sent) == Err::<(), StreamFailure>(
            StreamFailure::Closed,
        ),
        forall|sent: bool|
            #[trigger] stream_messages(seq![StreamOp::Shutdown(false, sent)]) == Seq::<
                Option<Seq<u8>>,
            >::empty(),
    decreases bufs.len(),
{
    if bufs.len() == 0 {
        assert(open_run(bufs) =~= seq![StreamOp::Shutdown(true, true)]);
        assert(stream_messages(open_run(bufs).drop_first()) == Seq::<Option<Seq<u8>>>::empty());
        assert(stream_messages(open_run(bufs)) =~= seq![None::<Seq<u8>>]);
        assert(bufs.map_values(|b: Seq<u8>| Some(b)) + seq![None::<Seq<u8>>] =~= seq![
            None::<Seq<u8>>,
        ]);
    } else {
        let tail = bufs.drop_first();
        assert forall|i: int| 0 <= i < tail.len() implies (#[trigger] tail[i]).len() > 0 by {
            assert(tail[i] == bufs[i + 1]);
        }
        lemma_writes_reach_channel_in_order(tail);
        assert(open_run(bufs)[0] == StreamOp::Write(bufs[0], true, true));
        assert(open_run(bufs).drop_first() =~= open_run(tail));
        assert(bufs.map_values(|b: Seq<u8>| Some(b)) + seq![None::<Seq<u8>>] =~= seq![
            Some(bufs[0]),
        ] + (tail.map_values(|b: Seq<u8>| Some(b)) + seq![None::<Seq<u8>>]));
    }
    assert forall|sent: bool| #[trigger]
        stream_messages(seq![StreamOp::Shutdown(false, sent)]) == Seq::<Option<Seq<u8>>>::empty() by {
        let ops = seq![StreamOp::Shutdown(false, sent)];
        assert(ops.drop_first() =~= Seq::<StreamOp>::empty());
        assert(stream_messages(ops.drop_first()) == Seq::<Option<Seq<u8>>>::empty());
        assert(op_message(ops[0]) is None);
    }
}

} // verus!
