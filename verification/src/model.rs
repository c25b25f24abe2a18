use vstd::prelude::*;
use crate::accumulator::{window, window_len};
use crate::error::GatewayError;

verus! {

/// How a consumer learns that writing has finished and the content is final.
#[derive(Clone, Copy, Debug, PartialEq, Eq, Structural)]
pub enum Strategy {
    /// A reader parks its wake handle while the endpoint is open and is woken
    /// by the close; it then drains the content through repeated reads. The
    /// content can be queried in place as well.
    Parked,
    /// Nothing is signalled: the consumer queries the endpoint, and is told
    /// the content only once the endpoint is closed.
    Polled,
    /// The close moves the whole buffer into a single message on a one-shot
    /// channel whose receiving half was handed out at construction.
    OneShot,
}

/// The abstract state of an endpoint.
pub struct GatewayView {
    /// The completion strategy, fixed at construction.
    pub strategy: Strategy,
    /// Whether the endpoint has been closed.
    pub closed: bool,
    /// Every byte accepted so far, in write order. Final once `closed`.
    pub content: Seq<u8>,
    /// How many bytes of `content` reads have handed out.
    pub cursor: nat,
    /// Whether a wake handle is parked, waiting for the close.
    pub waiting: bool,
    /// How many parked handles have been woken.
    pub wakes: nat,
}

impl GatewayView {
    /// The state of an endpoint that has just been made: open and empty.
    pub open spec fn fresh(strategy: Strategy) -> Self {
        GatewayView {
            strategy,
            closed: false,
            content: Seq::empty(),
            cursor: 0,
            waiting: false,
            wakes: 0,
        }
    }

    /// The invariant of the state: the cursor stays inside the content and
    /// does not move before the close, nobody waits for a close that has
    /// happened, nobody is woken before the close nor more than once, and
    /// only a parked endpoint has a cursor or a waiter.
    pub open spec fn valid(self) -> bool {
        &&& self.cursor <= self.content.len()
        &&& !self.closed ==> self.cursor == 0 && self.wakes == 0
        &&& self.closed ==> !self.waiting
        &&& self.wakes <= 1
        &&& self.strategy != Strategy::Parked ==> self.cursor == 0 && !self.waiting && self.wakes
            == 0
    }

    /// The state after an attempt to write `bytes`.
    pub open spec fn write(self, bytes: Seq<u8>) -> Self {
        if self.closed {
            self
        } else {
            GatewayView { content: self.content + bytes, ..self }
        }
    }

    /// What an attempt to write `bytes` reports.
    pub open spec fn write_result(self, bytes: Seq<u8>) -> Result<usize, GatewayError> {
        if self.closed {
            Err(GatewayError::ClosedEndpoint)
        } else {
            Ok(bytes.len() as usize)
        }
    }

    /// The state after writing each of `chunks` in turn.
    pub open spec fn write_all(self, chunks: Seq<Seq<u8>>) -> Self
        decreases chunks.len(),
    {
        if chunks.len() == 0 {
            self
        } else {
            self.write(chunks.first()).write_all(chunks.drop_first())
        }
    }

    /// The state after a close: closed, and the parked handle, if there was
    /// one, woken and gone.
    pub open spec fn close(self) -> Self {
        GatewayView {
            closed: true,
            waiting: false,
            wakes: if self.waiting {
                self.wakes + 1
            } else {
                self.wakes
            },
            ..self
        }
    }

    /// The content as a query sees it: known once the endpoint is closed,
    /// unless the close moved it into a message.
    pub open spec fn snapshot(self) -> Option<Seq<u8>> {
        if self.closed && self.strategy != Strategy::OneShot {
            Some(self.content)
        } else {
            None
        }
    }

    /// The message that the close moved into the one-shot channel, if it did.
    pub open spec fn message(self) -> Option<Seq<u8>> {
        if self.closed && self.strategy == Strategy::OneShot {
            Some(self.content)
        } else {
            None
        }
    }

    /// The bytes that the endpoint itself still stores.
    pub open spec fn stored(self) -> Seq<u8> {
        if self.closed && self.strategy == Strategy::OneShot {
            Seq::empty()
        } else {
            self.content
        }
    }

    /// How many bytes a read into room for `capacity` bytes hands out.
    pub open spec fn readable(self, capacity: nat) -> nat {
        if self.closed {
            window_len(self.content.len(), self.cursor, capacity)
        } else {
            0
        }
    }

    /// What a read into room for `capacity` bytes hands out: nothing yet
    /// (`None`) while the endpoint is open, else the next bytes after the
    /// cursor, none of them once the content is drained.
    pub open spec fn read_bytes(self, capacity: nat) -> Option<Seq<u8>> {
        if self.closed {
            Some(window(self.content, self.cursor, capacity))
        } else {
            None
        }
    }

    /// The state after a read into room for `capacity` bytes: while open the
    /// reader is parked, afterwards the cursor moves past what was handed out.
    pub open spec fn read(self, capacity: nat) -> Self {
        if !self.closed {
            GatewayView { waiting: true, ..self }
        } else {
            GatewayView { cursor: self.cursor + self.readable(capacity), ..self }
        }
    }

    /// The state after one read for each entry of `rooms`, in turn, the entry
    /// being the room that read has.
    pub open spec fn read_all(self, rooms: Seq<nat>) -> Self
        decreases rooms.len(),
    {
        if rooms.len() == 0 {
            self
        } else {
            self.read(rooms.first()).read_all(rooms.drop_first())
        }
    }

    /// What those reads hand out, joined in the order of the reads.
    pub open spec fn read_all_bytes(self, rooms: Seq<nat>) -> Seq<u8>
        decreases rooms.len(),
    {
        if rooms.len() == 0 {
            Seq::empty()
        } else {
            let head = match self.read_bytes(rooms.first()) {
                Some(bytes) => bytes,
                None => Seq::empty(),
            };
            head + self.read(rooms.first()).read_all_bytes(rooms.drop_first())
        }
    }
}

/// The sum of the entries of `rooms`.
pub open spec fn total(rooms: Seq<nat>) -> nat
    decreases rooms.len(),
{
    if rooms.len() == 0 {
        0
    } else {
        rooms.first() + total(rooms.drop_first())
    }
}

} // verus!
