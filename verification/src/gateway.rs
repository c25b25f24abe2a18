use vstd::prelude::*;
use std::task::Waker;
use tokio::sync::oneshot::{channel, Receiver, Sender};
use crate::accumulator::Accumulator;
use crate::error::GatewayError;
use crate::model::{GatewayView, Strategy};

verus! {

/// What a read came to.
#[derive(Debug, PartialEq, Eq)]
pub enum ReadOutcome {
    /// The endpoint is still open. The reader's wake handle has been parked
    /// and will be woken by the close; nothing was read.
    Suspended,
    /// The endpoint is closed: the next bytes of its content, as many as the
    /// reader had room for. No bytes at all means end of stream.
    Ready(Vec<u8>),
}

impl View for ReadOutcome {
    type V = Option<Seq<u8>>;

    open spec fn view(&self) -> Option<Seq<u8>> {
        match self {
            ReadOutcome::Suspended => None,
            ReadOutcome::Ready(bytes) => Some(bytes@),
        }
    }
}

/// An in-memory endpoint: bytes written to it pile up in a buffer until it
/// is closed, and the close makes the final content known to a consumer in
/// the way its `Strategy` says.
pub struct Gateway {
    strategy: Strategy,
    buffer: Accumulator,
    /// Offset of the next byte to read. It moves only after the close.
    cursor: usize,
    /// The wake handle of the reader that parked last, until the close wakes
    /// it.
    waiter: Option<Waker>,
    /// The sending half of the one-shot channel, until the close uses it up.
    tx: Option<Sender<Vec<u8>>>,
    /// The bytes that the close moved into the message.
    message: Ghost<Seq<u8>>,
    /// How many parked handles the close has woken.
    wakes: Ghost<nat>,
}

impl View for Gateway {
    type V = GatewayView;

    closed spec fn view(&self) -> GatewayView {
        GatewayView {
            strategy: self.strategy,
            closed: self.buffer.sealed(),
            content: if self.strategy == Strategy::OneShot && self.buffer.sealed() {
                self.message@
            } else {
                self.buffer.content()
            },
            cursor: self.cursor as nat,
            waiting: self.waiter is Some,
            wakes: self.wakes@,
        }
    }
}

impl Gateway {
    /// The representation invariant. Every constructor establishes it and
    /// every method keeps it.
    pub closed spec fn wf(&self) -> bool {
        &&& self@.valid()
        &&& self.buffer.content() == self@.stored()
        &&& self.tx is Some <==> self.strategy == Strategy::OneShot && !self.buffer.sealed()
    }

    /// A well-formed endpoint has a valid abstract state.
    pub proof fn lemma_wf_implies_valid(&self)
        requires
            self.wf(),
        ensures
            self@.valid(),
    {
    }

    fn open(strategy: Strategy, tx: Option<Sender<Vec<u8>>>) -> (gateway: Self)
        requires
            tx is Some <==> strategy == Strategy::OneShot,
        ensures
            gateway.wf(),
            gateway@ == GatewayView::fresh(strategy),
    {
        Gateway {
            strategy,
            buffer: Accumulator::new(),
            cursor: 0,
            waiter: None,
            tx,
            message: Ghost(Seq::empty()),
            wakes: Ghost(0),
        }
    }

    /// An open, empty endpoint that delivers through a one-shot channel,
    /// together with the channel's receiving half.
    pub fn new() -> (made: (Self, Receiver<Vec<u8>>))
        ensures
            made.0.wf(),
            made.0@ == GatewayView::fresh(Strategy::OneShot),
    {
        let (tx, rx) = channel();
        (Gateway::open(Strategy::OneShot, Some(tx)), rx)
    }

    /// An open, empty endpoint whose reader parks until the close.
    pub fn parked() -> (gateway: Self)
        ensures
            gateway.wf(),
            gateway@ == GatewayView::fresh(Strategy::Parked),
    {
        Gateway::open(Strategy::Parked, None)
    }

    /// An open, empty endpoint whose consumer polls `snapshot`.
    pub fn polled() -> (gateway: Self)
        ensures
            gateway.wf(),
            gateway@ == GatewayView::fresh(Strategy::Polled),
    {
        Gateway::open(Strategy::Polled, None)
    }

    /// An open, empty endpoint with the strategy asked for. A one-shot
    /// endpoint comes with the receiving half of its channel, the others
    /// with none.
    pub fn with_strategy(strategy: Strategy) -> (made: (Self, Option<Receiver<Vec<u8>>>))
        ensures
            made.0.wf(),
            made.0@ == GatewayView::fresh(strategy),
            made.1 is Some <==> strategy == Strategy::OneShot,
    {
        match strategy {
            Strategy::Parked => (Gateway::parked(), None),
            Strategy::Polled => (Gateway::polled(), None),
            Strategy::OneShot => {
                let (gateway, rx) = Gateway::new();
                (gateway, Some(rx))
            },
        }
    }

    /// The completion strategy this endpoint was made with.
    pub fn strategy(&self) -> (strategy: Strategy)
        ensures
            strategy == self@.strategy,
    {
        self.strategy
    }

    /// Whether the endpoint has been closed.
    pub fn is_closed(&self) -> (closed: bool)
        ensures
            closed == self@.closed,
    {
        self.buffer.is_closed()
    }

    /// The bytes written so far, while the endpoint is open. Once it is
    /// closed this view of the buffer is gone.
    pub fn as_ref(&self) -> (buffer: Option<&Vec<u8>>)
        ensures
            buffer is Some <==> !self@.closed,
            buffer is Some ==> buffer.unwrap()@ == self@.content,
    {
        if self.buffer.is_closed() {
            None
        } else {
            Some(self.buffer.bytes())
        }
    }

    /// The buffer itself, for the owner to change while the endpoint is open:
    /// what the buffer holds when the borrow ends is the content from then on.
    /// A closed endpoint lends nothing.
    pub fn as_mut(&mut self) -> (buffer: Option<&mut Vec<u8>>)
        requires
            old(self).wf(),
        ensures
            final(self).wf(),
            old(self)@.closed ==> buffer is None && final(self)@ == old(self)@,
            !old(self)@.closed ==> buffer is Some && buffer.unwrap()@ == old(self)@.content
                && final(self)@ == (GatewayView {
                content: final(buffer.unwrap())@,
                ..old(self)@
            }),
    {
        self.buffer.bytes_mut()
    }

    /// Appends all of `buf` to the content and reports its length. Never
    /// suspends and never takes only a part. Once the endpoint is closed
    /// every write fails with `ClosedEndpoint` and changes nothing.
    pub fn write(&mut self, buf: &[u8]) -> (written: Result<usize, GatewayError>)
        requires
            old(self).wf(),
        ensures
            final(self).wf(),
            final(self)@ == old(self)@.write(buf@),
            written == old(self)@.write_result(buf@),
    {
        self.buffer.append(buf)
    }

    /// Does nothing and succeeds: written bytes are never staged anywhere
    /// but in the content itself.
    pub fn flush(&mut self) -> (flushed: Result<(), GatewayError>)
        ensures
            flushed is Ok,
            *final(self) == *old(self),
    {
        Ok(())
    }

    /// The final content, once the endpoint is closed and still holds it.
    /// While the endpoint is open the content is not yet available, which is
    /// no failure; after a one-shot close it has left with the message.
    pub fn snapshot(&self) -> (bytes: Option<&Vec<u8>>)
        ensures
            bytes is Some <==> self@.snapshot() is Some,
            bytes is Some ==> Some(bytes.unwrap()@) == self@.snapshot(),
    {
        match self.strategy {
            Strategy::OneShot => None,
            _ => self.buffer.snapshot(),
        }
    }

    /// Closes the endpoint: from now on the content is final. A parked
    /// reader is woken. A one-shot endpoint moves its buffer into the message
    /// and sends it; that the receiver may be gone is no failure, and the
    /// message is then dropped. Closing a closed endpoint changes nothing.
    pub fn close(&mut self)
        requires
            old(self).wf(),
        ensures
            final(self).wf(),
            final(self)@ == old(self)@.close(),
    {
        if self.buffer.is_closed() {
            return ;
        }
        match self.tx.take() {
            Some(tx) => {
                if let Some(bytes) = self.buffer.release() {
                    proof {
                        self.message = Ghost(bytes@);
                    }
                    let _ = tx.send(bytes);
                }
            },
            None => {
                self.buffer.close();
            },
        }
        if let Some(waker) = self.waiter.take() {
            proof {
                self.wakes = Ghost(self.wakes@ + 1);
            }
            waker.wake();
        }
    }

    /// Reads the content after the close, or parks the reader until then.
    ///
    /// While the endpoint is open, `waker` is parked in place of any handle
    /// parked before, and the read is suspended. Once the endpoint is closed,
    /// the read hands out the bytes that follow those already read, at most
    /// `capacity` of them, and moves the cursor past them; when none are left
    /// it hands out none, which is the end of the stream.
    pub fn read(&mut self, waker: &Waker, capacity: usize) -> (outcome: ReadOutcome)
        requires
            old(self).wf(),
            old(self)@.strategy == Strategy::Parked,
        ensures
            final(self).wf(),
            final(self)@ == old(self)@.read(capacity as nat),
            outcome@ == old(self)@.read_bytes(capacity as nat),
    {
        if !self.buffer.is_closed() {
            self.waiter = Some(waker.clone());
            return ReadOutcome::Suspended;
        }
        let end: usize = self.buffer.len();
        let bytes = self.buffer.copy_from(self.cursor, capacity);
        assert(self.cursor + bytes@.len() <= end);
        self.cursor = self.cursor + bytes.len();
        ReadOutcome::Ready(bytes)
    }
}

} // verus!
