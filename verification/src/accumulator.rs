use vstd::prelude::*;
use crate::error::GatewayError;

verus! {

/// How many bytes fit when `capacity` bytes are wanted from offset `start` of
/// a sequence of `len` bytes.
pub open spec fn window_len(len: nat, start: nat, capacity: nat) -> nat {
    if start >= len {
        0
    } else if capacity <= len - start {
        capacity
    } else {
        (len - start) as nat
    }
}

/// The part of `content` that starts at offset `start` and has at most
/// `capacity` bytes; nothing where `start` is at or past the end.
pub open spec fn window(content: Seq<u8>, start: nat, capacity: nat) -> Seq<u8> {
    if start >= content.len() {
        Seq::empty()
    } else {
        content.subrange(
            start as int,
            (start + window_len(content.len(), start, capacity)) as int,
        )
    }
}

/// A growable byte sequence together with an open/closed flag.
///
/// Bytes are only ever added at the end, and only while the accumulator is
/// open. Closing is permanent.
pub struct Accumulator {
    data: Vec<u8>,
    closed: bool,
}

impl Accumulator {
    /// The bytes held, in the order in which they were appended.
    pub closed spec fn content(&self) -> Seq<u8> {
        self.data@
    }

    /// Whether the accumulator has been closed.
    pub closed spec fn sealed(&self) -> bool {
        self.closed
    }

    /// An empty, open accumulator.
    pub fn new() -> (acc: Self)
        ensures
            acc.content() == Seq::<u8>::empty(),
            !acc.sealed(),
    {
        Accumulator { data: Vec::new(), closed: false }
    }

    /// Copies `bytes` onto the end of the stored sequence and reports how many
    /// bytes were taken, which is always all of them. A closed accumulator
    /// takes nothing and is left as it was.
    pub fn append(&mut self, bytes: &[u8]) -> (r: Result<usize, GatewayError>)
        ensures
            old(self).sealed() ==> r == Err::<usize, GatewayError>(GatewayError::ClosedEndpoint)
                && *final(self) == *old(self),
            !old(self).sealed() ==> r == Ok::<usize, GatewayError>(bytes.len())
                && final(self).content() == old(self).content() + bytes@
                && !final(self).sealed(),
    {
        if self.closed {
            return Err(GatewayError::ClosedEndpoint);
        }
        self.data.extend_from_slice(bytes);
        Ok(bytes.len())
    }

    /// Closes the accumulator. The bytes stay where they are; closing again
    /// changes nothing.
    pub fn close(&mut self)
        ensures
            final(self).sealed(),
            final(self).content() == old(self).content(),
    {
        self.closed = true;
    }

    /// Closes the accumulator by moving its buffer out: the caller gets the
    /// bytes and the accumulator is left closed and empty. An accumulator
    /// that is closed already gives nothing and is left as it was.
    pub fn release(&mut self) -> (bytes: Option<Vec<u8>>)
        ensures
            old(self).sealed() ==> bytes is None && *final(self) == *old(self),
            !old(self).sealed() ==> bytes is Some && bytes.unwrap()@ == old(self).content()
                && final(self).sealed() && final(self).content() == Seq::<u8>::empty(),
    {
        if self.closed {
            return None;
        }
        self.closed = true;
        let mut bytes: Vec<u8> = Vec::new();
        std::mem::swap(&mut bytes, &mut self.data);
        Some(bytes)
    }

    /// Whether the accumulator has been closed.
    pub fn is_closed(&self) -> (closed: bool)
        ensures
            closed == self.sealed(),
    {
        self.closed
    }

    /// The number of bytes held.
    pub fn len(&self) -> (n: usize)
        ensures
            n == self.content().len(),
    {
        self.data.len()
    }

    /// The bytes held, whatever the state.
    pub fn bytes(&self) -> (buffer: &Vec<u8>)
        ensures
            buffer@ == self.content(),
    {
        &self.data
    }

    /// The buffer itself, for the owner to change while the accumulator is
    /// open. A closed accumulator lends nothing.
    pub fn bytes_mut(&mut self) -> (buffer: Option<&mut Vec<u8>>)
        ensures
            old(self).sealed() ==> buffer is None && *final(self) == *old(self),
            !old(self).sealed() ==> buffer is Some && buffer.unwrap()@ == old(self).content()
                && final(self).content() == final(buffer.unwrap())@ && !final(self).sealed(),
    {
        if self.closed {
            None
        } else {
            Some(&mut self.data)
        }
    }

    /// The final bytes, once the accumulator is closed. While it is open they
    /// are not yet available, which is no failure.
    pub fn snapshot(&self) -> (bytes: Option<&Vec<u8>>)
        ensures
            bytes is Some <==> self.sealed(),
            bytes is Some ==> bytes.unwrap()@ == self.content(),
    {
        if self.closed {
            Some(&self.data)
        } else {
            None
        }
    }

    /// A copy of the bytes from offset `start` on, at most `capacity` of them.
    /// From the end of the content on there is nothing to copy.
    pub fn copy_from(&self, start: usize, capacity: usize) -> (bytes: Vec<u8>)
        ensures
            bytes@ == window(self.content(), start as nat, capacity as nat),
    {
        let len: usize = self.data.len();
        if start >= len {
            return Vec::new();
        }
        let left: usize = len - start;
        let count: usize = if capacity <= left { capacity } else { left };
        let from = vstd::slice::slice_subrange(self.data.as_slice(), start, start + count);
        let mut bytes: Vec<u8> = Vec::new();
        bytes.extend_from_slice(from);
        bytes
    }
}

} // verus!
