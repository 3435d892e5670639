//! The trusted boundary to the kernel's message-queue calls.
//!
//! Each function here wraps exactly one call of the `nix` crate (or of the
//! platform clock) and converts its arguments and result to and from plain
//! values. Their contracts state only what the wrapped call's source and
//! documentation show; everything else the library proves on top of them.
//!
//! Kernel outcomes depend on the state of the system — which queues exist,
//! what other processes do — so these contracts deliberately promise nothing
//! about which outcome comes back; the verified callers state what holds of
//! every outcome.

use vstd::prelude::*;

use crate::error::EBADF;
use crate::name::cstr_shape;
use crate::options::O_CREAT;

verus! {

#[verifier::external_type_specification]
#[verifier::external_body]
/// The platform's opaque handle for an open queue, as the call layer
/// carries it.
pub struct ExMqdT(nix::mqueue::MqdT);

/// Relies on `nix::mqueue::mq_open`: opens (or creates) the queue named by
/// the given null-terminated bytes and returns its descriptor, or the
/// kernel's error number. `sizes`, when given, carries the requested
/// `(capacity, max_msg_len)` pair.
///
/// The C call reads its permission and attribute arguments exactly when
/// creation is requested, and the call layer forwards them exactly when
/// `sizes` is given; a creating open must therefore carry a size request,
/// or the call would read arguments that were never passed.
#[verifier::external_body]
pub(crate) fn sys_open(name: &[u8], flags: i32, mode: u32, sizes: Option<(usize, usize)>) -> Result<
    nix::mqueue::MqdT,
    i32,
>
    requires
        cstr_shape(name@),
        flags & O_CREAT != 0 ==> sizes is Some,
{
    let cname = core::ffi::CStr::from_bytes_with_nul(name).unwrap();
    let oflag = nix::mqueue::MQ_OFlag::from_bits_truncate(flags);
    let perm = nix::sys::stat::Mode::from_bits_truncate(mode);
    let r = match sizes {
        Some((cap, len)) => {
            let attr = nix::mqueue::MqAttr::new(0, cap as i64, len as i64, 0);
            nix::mqueue::mq_open(cname, oflag, perm, Some(&attr))
        },
        None => nix::mqueue::mq_open(cname, oflag, perm, None),
    };
    r.map_err(|e| e as i32)
}

/// Relies on `nix::mqueue::mq_unlink`: removes the queue named by the given
/// null-terminated bytes from the namespace, or returns the kernel's error
/// number. Handles already open on the queue keep working.
#[verifier::external_body]
pub(crate) fn sys_unlink(name: &[u8]) -> Result<(), i32>
    requires
        cstr_shape(name@),
{
    let cname = core::ffi::CStr::from_bytes_with_nul(name).unwrap();
    nix::mqueue::mq_unlink(cname).map_err(|e| e as i32)
}

/// Relies on `nix::mqueue::mq_close`: closes the descriptor, consuming it.
#[verifier::external_body]
pub(crate) fn sys_close(mqd: nix::mqueue::MqdT) -> Result<(), i32> {
    nix::mqueue::mq_close(mqd).map_err(|e| e as i32)
}

/// Relies on `nix::mqueue::mq_send`: queues the message with the given
/// priority, or returns the kernel's error number.
#[verifier::external_body]
pub(crate) fn sys_send(mqd: &nix::mqueue::MqdT, msg: &[u8], priority: u32) -> Result<(), i32> {
    nix::mqueue::mq_send(mqd, msg, priority).map_err(|e| e as i32)
}

/// Relies on `nix::mqueue::mq_receive`: takes the highest-priority message,
/// writes its payload into the buffer, and returns its priority and length.
/// On success the returned length is the received message's, which fits the
/// buffer (a too-small buffer fails instead); the buffer keeps its length.
#[verifier::external_body]
pub(crate) fn sys_receive(mqd: &nix::mqueue::MqdT, buf: &mut Vec<u8>) -> (r: Result<
    (u32, usize),
    i32,
>)
    ensures
        final(buf)@.len() == old(buf)@.len(),
        r matches Ok(m) ==> m.1 <= final(buf)@.len(),
{
    let mut prio: u32 = 0;
    match nix::mqueue::mq_receive(mqd, buf.as_mut_slice(), &mut prio) {
        Ok(len) => Ok((prio, len)),
        Err(e) => Err(e as i32),
    }
}

/// Relies on `nix::mqueue::mq_getattr`: reports the queue's flags, capacity,
/// maximum message length, and current message count, in that order. The
/// call's documentation names an invalid descriptor as its only failure.
#[verifier::external_body]
pub(crate) fn sys_getattr(mqd: &nix::mqueue::MqdT) -> (r: Result<(i64, usize, usize, usize), i32>)
    ensures
        r matches Err(code) ==> code == EBADF,
{
    match nix::mqueue::mq_getattr(mqd) {
        Ok(a) => Ok((a.flags() as i64, a.maxmsg() as usize, a.msgsize() as usize, a.curmsgs() as usize)),
        Err(e) => Err(e as i32),
    }
}

/// Relies on `nix::mqueue::mq_set_nonblock`: sets the descriptor's
/// non-blocking flag, leaving the queue's other attributes as they are.
/// The underlying attribute calls document an invalid descriptor as their
/// only failure (the invalid-flags condition cannot arise: the call's
/// source sets only the non-blocking flag).
#[verifier::external_body]
pub(crate) fn sys_set_nonblock(mqd: &nix::mqueue::MqdT) -> (r: Result<(), i32>)
    ensures
        r matches Err(code) ==> code == EBADF,
{
    nix::mqueue::mq_set_nonblock(mqd).map(|_| ()).map_err(|e| e as i32)
}

/// Relies on `nix::mqueue::mq_remove_nonblock`: clears the descriptor's
/// non-blocking flag, leaving the queue's other attributes as they are.
/// The underlying attribute calls document an invalid descriptor as their
/// only failure (the invalid-flags condition cannot arise: the call's
/// source clears the flags entirely).
#[verifier::external_body]
pub(crate) fn sys_remove_nonblock(mqd: &nix::mqueue::MqdT) -> (r: Result<(), i32>)
    ensures
        r matches Err(code) ==> code == EBADF,
{
    nix::mqueue::mq_remove_nonblock(mqd).map(|_| ()).map_err(|e| e as i32)
}

} // verus!
