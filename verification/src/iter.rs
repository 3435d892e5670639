//! The iterator adapter: repeated receives that stop when the queue
//! reports it would block.
//!
//! Each step receives into a buffer of the maximum message length that was
//! captured once, at construction, from an attributes query. A
//! [`Error::WouldBlock`] outcome ends the sequence; any other error is
//! surfaced through the step's result so the caller can tell a drained
//! queue apart from a broken one. The sequence is finite only on a
//! non-blocking handle; on a blocking handle each step may wait.

use vstd::prelude::*;

use crate::error::{kind_of_errno, Error, EINTR};
use crate::mq::{Attributes, PosixMq};

verus! {

/// A zero-filled receive buffer of the given length.
fn zeroed_buffer(len: usize) -> (v: Vec<u8>)
    ensures
        v@.len() == len,
{
    let mut v: Vec<u8> = Vec::new();
    let mut i: usize = 0;
    while i < len
        invariant
            v@.len() == i,
            i <= len,
        decreases len - i,
    {
        v.push(0);
        i = i + 1;
    }
    v
}

/// The receive-buffer length a sequence caches from an attributes query:
/// the queue's maximum message length, or zero where the query failed —
/// which makes later receives fail predictably on an undersized buffer
/// rather than silently succeed.
pub fn cached_len(attrs: &Result<Attributes, Error>) -> (n: usize)
    ensures
        attrs matches Ok(a) ==> n == a.max_msg_len,
        attrs is Err ==> n == 0,
{
    match attrs {
        Ok(a) => a.max_msg_len,
        Err(_) => 0,
    }
}

/// Package one receive outcome as an iteration step: a received message
/// keeps its priority and exactly the first `len` bytes the receive
/// reported; a would-block outcome ends the sequence (`None`); any other
/// error is passed through unchanged as the step's result.
pub fn step_from_receive(outcome: Result<(u32, usize), Error>, buf: Vec<u8>) -> (r: Option<
    Result<(u32, Vec<u8>), Error>,
>)
    requires
        outcome matches Ok(m) ==> m.1 <= buf@.len(),
    ensures
        outcome matches Ok(m) ==> (r matches Some(Ok(p)) && p.0 == m.0 && p.1@ == buf@.subrange(
            0,
            m.1 as int,
        )),
        outcome matches Err(e) ==> (if e == Error::WouldBlock {
            r is None
        } else {
            r == Some(Result::<(u32, Vec<u8>), Error>::Err(e))
        }),
{
    match outcome {
        Err(e) => {
            if e == Error::WouldBlock {
                None
            } else {
                Some(Err(e))
            }
        },
        Ok((priority, len)) => {
            let mut payload = buf;
            payload.truncate(len);
            Some(Ok((priority, payload)))
        },
    }
}

/// One receiving step on a handle: receive into a fresh buffer of the
/// cached length and package the outcome as [`step_from_receive`] does.
fn next_message(mq: &PosixMq, max_msg_len: usize) -> (r: Option<Result<(u32, Vec<u8>), Error>>)
    ensures
        r matches Some(Ok(p)) ==> p.1@.len() <= max_msg_len,
        r matches Some(Err(e)) ==> e != Error::WouldBlock,
        r matches Some(Err(e)) ==> e != kind_of_errno(EINTR),
{
    let mut buf = zeroed_buffer(max_msg_len);
    let outcome = mq.recv(&mut buf);
    step_from_receive(outcome, buf)
}

/// Steps messages out of a borrowed handle.
#[derive(Clone, Copy)]
pub struct Iter<'a> {
    /// The handle receives come from.
    pub mq: &'a PosixMq,
    /// The receive-buffer length, captured once at construction.
    pub max_msg_len: usize,
}

impl<'a> Iter<'a> {
    /// Receive the next message; `None` once the queue reports it would
    /// block; any other receive error ends up in the step's result (the
    /// interrupted-call condition is retried inside the receive and never
    /// appears).
    pub fn next(&mut self) -> (r: Option<Result<(u32, Vec<u8>), Error>>)
        ensures
            *final(self) == *old(self),
            r matches Some(Ok(p)) ==> p.1@.len() <= old(self).max_msg_len,
            r matches Some(Err(e)) ==> e != Error::WouldBlock,
            r matches Some(Err(e)) ==> e != kind_of_errno(EINTR),
    {
        next_message(self.mq, self.max_msg_len)
    }
}

/// Steps messages out of an owned handle.
pub struct IntoIter {
    /// The handle receives come from; closed when the value is consumed by
    /// [`IntoIter::close`].
    pub mq: PosixMq,
    /// The receive-buffer length, captured once at construction.
    pub max_msg_len: usize,
}

impl IntoIter {
    /// Receive the next message; `None` once the queue reports it would
    /// block; any other receive error ends up in the step's result (the
    /// interrupted-call condition is retried inside the receive and never
    /// appears).
    pub fn next(&mut self) -> (r: Option<Result<(u32, Vec<u8>), Error>>)
        ensures
            *final(self) == *old(self),
            r matches Some(Ok(p)) ==> p.1@.len() <= old(self).max_msg_len,
            r matches Some(Err(e)) ==> e != Error::WouldBlock,
            r matches Some(Err(e)) ==> e != kind_of_errno(EINTR),
    {
        next_message(&self.mq, self.max_msg_len)
    }

    /// Close the wrapped handle, consuming the sequence.
    pub fn close(self) -> (r: Result<(), Error>) {
        let IntoIter { mq, max_msg_len: _ } = self;
        mq.close()
    }
}

impl PosixMq {
    /// A sequence of receives from this handle, each with a buffer of the
    /// maximum message length captured now, as [`cached_len`] of an
    /// attributes query taken here.
    ///
    /// On a non-blocking handle the sequence drains the queue and ends;
    /// on a blocking handle it never ends.
    pub fn iter<'a>(&'a self) -> (r: Iter<'a>)
        ensures
            r.mq == self,
    {
        let max_msg_len = cached_len(&self.attributes());
        Iter { mq: self, max_msg_len }
    }

    /// As [`PosixMq::iter`], but consuming the handle.
    pub fn into_iter(self) -> (r: IntoIter)
        ensures
            r.mq == self,
    {
        let max_msg_len = cached_len(&self.attributes());
        IntoIter { mq: self, max_msg_len }
    }
}

} // verus!
