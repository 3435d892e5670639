//! The queue handle and its operations.

use vstd::prelude::*;

use crate::error::{error_from_errno, is_interrupted, kind_of_errno, Error, EBADF, EINTR, ENOSYS};
use crate::name::{cstr_shape, encode_name, is_encoded_name, lemma_encoded_cstr_shape, valid_name};
use crate::options::{OpenOptions, O_NONBLOCK};
use crate::quirks::target_capabilities;
use crate::sys;

verus! {

/// A point-in-time snapshot of a queue's capacities and state.
///
/// Immediately stale by design: concurrent producers and consumers can
/// change `current_messages` between the query and any use of it.
#[derive(Clone, Copy, Debug, PartialEq, Eq, Structural, Default)]
#[non_exhaustive]
pub struct Attributes {
    /// The maximum size of messages that can be stored in the queue.
    pub max_msg_len: usize,
    /// The maximum number of messages in the queue.
    pub capacity: usize,
    /// The number of messages in the queue when the snapshot was taken.
    pub current_messages: usize,
    /// Whether the descriptor was in non-blocking mode when the snapshot
    /// was taken.
    pub nonblocking: bool,
}

/// The snapshot that a raw attribute quadruple from the kernel stands
/// for: the third and second values are the maximum message length and the
/// capacity, the fourth is the current message count, and the non-blocking
/// bit is read out of the flags.
pub fn attributes_from_raw(flags: i64, maxmsg: usize, msgsize: usize, curmsgs: usize) -> (r:
    Attributes)
    ensures
        r.max_msg_len == msgsize,
        r.capacity == maxmsg,
        r.current_messages == curmsgs,
        r.nonblocking <==> flags & (O_NONBLOCK as i64) != 0,
{
    Attributes {
        max_msg_len: msgsize,
        capacity: maxmsg,
        current_messages: curmsgs,
        nonblocking: flags & (O_NONBLOCK as i64) != 0,
    }
}

/// An owned descriptor for an open queue.
///
/// Created by a successful open; there is no half-open state. The handle
/// owns the descriptor exclusively and is closed exactly once, by
/// [`PosixMq::close`]; the owning value is consumed by the close, so it
/// cannot be closed twice.
///
/// **The close is explicit.** A handle that merely goes out of scope does
/// not close its descriptor, which then stays open until the process ends:
/// call [`PosixMq::close`] (or [`PosixMq::into_raw_mqd`], which hands the
/// descriptor on) when the handle is done with.
#[derive(Debug)]
pub struct PosixMq {
    mqd: nix::mqueue::MqdT,
}

impl PosixMq {
    /// The descriptor this handle owns.
    pub closed spec fn descriptor(self) -> nix::mqueue::MqdT {
        self.mqd
    }
}

impl PosixMq {
    /// Open an existing queue in read-write mode.
    pub fn open(name: &[u8]) -> (r: Result<PosixMq, Error>)
        ensures
            !valid_name(name@) ==> (r matches Err(e) && e == Error::InvalidInput),
    {
        OpenOptions::readwrite().open(name)
    }

    /// Open a queue in read-write mode, creating it if it does not exist.
    pub fn create(name: &[u8]) -> (r: Result<PosixMq, Error>)
        ensures
            !valid_name(name@) ==> (r matches Err(e) && e == Error::InvalidInput),
    {
        OpenOptions::readwrite().create().open(name)
    }

    /// Add a message to the queue.
    ///
    /// Blocks while the queue is full, unless the descriptor is in
    /// non-blocking mode, in which case it fails with
    /// [`Error::WouldBlock`]. A call interrupted by a signal is retried
    /// transparently, so the interrupted-call condition never reaches the
    /// caller; after an astronomical number of consecutive interruptions
    /// the attempt is abandoned with the library-raised `Error::Other(0)`.
    pub fn send(&self, priority: u32, msg: &[u8]) -> (r: Result<(), Error>)
        ensures
            r matches Err(e) ==> e != kind_of_errno(EINTR),
    {
        let mut attempts: u64 = 0;
        while attempts < u64::MAX
            decreases u64::MAX - attempts,
        {
            match sys::sys_send(&self.mqd, msg, priority) {
                Ok(()) => {
                    return Ok(());
                },
                Err(code) => {
                    if !is_interrupted(code) {
                        return Err(error_from_errno(code));
                    }
                },
            }
            attempts = attempts + 1;
        }
        Err(Error::Other(0))
    }

    /// Take the highest-priority message from the queue, writing its
    /// payload into `msgbuf` and returning its priority and length.
    ///
    /// The buffer must be at least as long as the queue's maximum message
    /// length, or the call fails deterministically without delivering a
    /// partial payload. Blocks while the queue is empty, unless the
    /// descriptor is in non-blocking mode, in which case it fails with
    /// [`Error::WouldBlock`]. A call interrupted by a signal is retried
    /// transparently, so the interrupted-call condition never reaches the
    /// caller; after an astronomical number of consecutive interruptions
    /// the attempt is abandoned with the library-raised `Error::Other(0)`.
    pub fn recv(&self, msgbuf: &mut Vec<u8>) -> (r: Result<(u32, usize), Error>)
        ensures
            final(msgbuf)@.len() == old(msgbuf)@.len(),
            r matches Ok(m) ==> m.1 <= final(msgbuf)@.len(),
            r matches Err(e) ==> e != kind_of_errno(EINTR),
    {
        let ghost len0 = msgbuf@.len();
        let mut attempts: u64 = 0;
        while attempts < u64::MAX
            invariant
                msgbuf@.len() == len0,
                len0 == old(msgbuf)@.len(),
            decreases u64::MAX - attempts,
        {
            match sys::sys_receive(&self.mqd, msgbuf) {
                Ok(m) => {
                    return Ok(m);
                },
                Err(code) => {
                    if !is_interrupted(code) {
                        return Err(error_from_errno(code));
                    }
                },
            }
            attempts = attempts + 1;
        }
        Err(Error::Other(0))
    }

    /// Take a snapshot of the queue's attributes.
    ///
    /// Which values come back depends on the queue's state at the moment of
    /// the call; the snapshot is [`attributes_from_raw`] of whatever the
    /// kernel reported. Failure indicates an invalid descriptor, which can
    /// only arise through misuse of [`PosixMq::from_raw_mqd`].
    pub fn attributes(&self) -> (r: Result<Attributes, Error>)
        ensures
            r matches Err(e) ==> e == Error::Other(EBADF),
    {
        match sys::sys_getattr(&self.mqd) {
            Err(code) => Err(error_from_errno(code)),
            Ok((flags, maxmsg, msgsize, curmsgs)) => Ok(
                attributes_from_raw(flags, maxmsg, msgsize, curmsgs),
            ),
        }
    }

    /// Check whether the descriptor is in non-blocking mode.
    ///
    /// A failure indicates an invalid descriptor, as for
    /// [`PosixMq::attributes`].
    pub fn is_nonblocking(&self) -> (r: Result<bool, Error>)
        ensures
            r matches Err(e) ==> e == Error::Other(EBADF),
    {
        match self.attributes() {
            Ok(attrs) => Ok(attrs.nonblocking),
            Err(e) => Err(e),
        }
    }

    /// Enable or disable non-blocking mode for this descriptor.
    ///
    /// Mutates only the blocking-mode bit; the queue's other attributes are
    /// left as they are. A failure indicates an invalid descriptor, as for
    /// [`PosixMq::attributes`].
    pub fn set_nonblocking(&self, nonblocking: bool) -> (r: Result<(), Error>)
        ensures
            r matches Err(e) ==> e == Error::Other(EBADF),
    {
        let res = if nonblocking {
            sys::sys_set_nonblock(&self.mqd)
        } else {
            sys::sys_remove_nonblock(&self.mqd)
        };
        match res {
            Ok(()) => Ok(()),
            Err(code) => Err(error_from_errno(code)),
        }
    }

    /// Create a new descriptor for the same queue, with close-on-exec set.
    ///
    /// Gated by the capability table: duplication needs a plain-integer
    /// descriptor, and the opaque platform handle this build carries
    /// defines no duplication primitive, so the operation reports itself
    /// unavailable with `Error::Other(ENOSYS)`.
    pub fn try_clone(&self) -> (r: Result<PosixMq, Error>)
        ensures
            !target_capabilities().supports_duplicate_with_cloexec ==> (r matches Err(e) && e
                == Error::Other(ENOSYS)),
    {
        Err(Error::Other(ENOSYS))
    }

    /// Check whether the descriptor will be closed if the process replaces
    /// its program image.
    ///
    /// Gated by the capability table: where a plain descriptor cannot be
    /// extracted, exec-time inheritance is not independently controllable,
    /// and the conservative answer `true` is returned rather than an error
    /// — queue descriptors close on exec by default.
    pub fn is_cloexec(&self) -> (r: Result<bool, Error>)
        ensures
            !target_capabilities().supports_descriptor_extraction ==> (r matches Ok(b) && b),
    {
        Ok(true)
    }

    /// Change close-on-exec for the descriptor.
    ///
    /// Gated by the capability table: unavailable without descriptor
    /// extraction, reported as `Error::Other(ENOSYS)`.
    pub fn set_cloexec(&self, _cloexec: bool) -> (r: Result<(), Error>)
        ensures
            !target_capabilities().supports_descriptor_extraction ==> (r matches Err(e) && e
                == Error::Other(ENOSYS)),
    {
        Err(Error::Other(ENOSYS))
    }

    /// Extract a plain pollable descriptor for readiness notification.
    ///
    /// Gated by the capability table: where the descriptor is carried as an
    /// opaque platform handle, no pollable integer can be extracted, and
    /// the operation fails with `Error::Other(ENOSYS)`.
    pub fn pollable_fd(&self) -> (r: Result<i32, Error>)
        ensures
            !target_capabilities().supports_descriptor_extraction ==> (r matches Err(e) && e
                == Error::Other(ENOSYS)),
    {
        Err(Error::Other(ENOSYS))
    }

    /// Create a handle from an already opened queue descriptor.
    ///
    /// An unchecked contract, not silent trust: the caller must guarantee
    /// that the descriptor is open and exclusively owned. Misuse surfaces
    /// as errors on later calls, see [`PosixMq::attributes`].
    pub fn from_raw_mqd(mqd: nix::mqueue::MqdT) -> (r: PosixMq)
        ensures
            r.descriptor() == mqd,
    {
        PosixMq { mqd }
    }

    /// Borrow the raw queue descriptor for inspection, without giving up
    /// ownership.
    pub fn as_raw_mqd(&self) -> (r: &nix::mqueue::MqdT)
        ensures
            *r == self.descriptor(),
    {
        &self.mqd
    }

    /// Consume the handle and yield the descriptor it owned, without
    /// closing it; ownership of the descriptor passes to the caller, and
    /// [`PosixMq::from_raw_mqd`] of the result restores the handle.
    pub fn into_raw_mqd(self) -> (r: nix::mqueue::MqdT)
        ensures
            r == self.descriptor(),
    {
        let PosixMq { mqd } = self;
        mqd
    }

    /// Close the descriptor, consuming the handle.
    ///
    /// The close happens exactly once: after this call the owning value no
    /// longer exists, so it cannot be closed again.
    pub fn close(self) -> (r: Result<(), Error>) {
        let PosixMq { mqd } = self;
        match sys::sys_close(mqd) {
            Ok(()) => Ok(()),
            Err(code) => Err(error_from_errno(code)),
        }
    }
}

/// Delete a queue's name from the namespace.
///
/// A separator is prepended to the name if it is missing. Handles already
/// open on the queue keep working; only future opens of the name stop
/// reaching this queue. A name with an embedded null byte is rejected with
/// [`Error::InvalidInput`].
pub fn remove_queue(name: &[u8]) -> (r: Result<(), Error>)
    ensures
        !valid_name(name@) ==> (r matches Err(e) && e == Error::InvalidInput),
{
    match encode_name(name) {
        Err(e) => Err(e),
        Ok(enc) => {
            proof {
                lemma_encoded_cstr_shape(name@);
            }
            match sys::sys_unlink(enc.as_slice()) {
                Ok(()) => Ok(()),
                Err(code) => Err(error_from_errno(code)),
            }
        },
    }
}

/// Delete a queue's name given in already-encoded form, without
/// normalizing it.
///
/// The name must already be null-terminated and free of interior null
/// bytes; anything else is rejected with [`Error::InvalidInput`].
pub fn remove_queue_c(name: &[u8]) -> (r: Result<(), Error>)
    ensures
        !cstr_shape(name@) ==> (r matches Err(e) && e == Error::InvalidInput),
{
    if !is_encoded_name(name) {
        return Err(Error::InvalidInput);
    }
    match sys::sys_unlink(name) {
        Ok(()) => Ok(()),
        Err(code) => Err(error_from_errno(code)),
    }
}

} // verus!
