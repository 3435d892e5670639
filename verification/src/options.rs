//! Open/create configuration: a builder consumed by an open call.

use vstd::prelude::*;

use crate::error::{error_from_errno, Error};
use crate::mq::PosixMq;
use crate::name::{cstr_shape, encode_name, is_encoded_name, lemma_encoded_cstr_shape, valid_name};
use crate::quirks::{capabilities, target_capabilities};
use crate::sys;

verus! {

/// Open flag: receive only.
pub const O_RDONLY: i32 = 0;

/// Open flag: send only.
pub const O_WRONLY: i32 = 1;

/// Open flag: send and receive.
pub const O_RDWR: i32 = 2;

/// Mask of the access-mode bits within the open flags.
pub const O_ACCMODE: i32 = 3;

/// Open flag: create the queue if it does not exist.
pub const O_CREAT: i32 = 64;

/// Open flag: together with creation, fail if the queue already exists.
pub const O_EXCL: i32 = 128;

/// Open flag: put the descriptor in non-blocking mode.
pub const O_NONBLOCK: i32 = 2048;

/// Flags and parameters which control how a queue is opened or created.
///
/// Built incrementally by the methods below, then consumed by
/// [`OpenOptions::open`] or [`OpenOptions::open_c`].
#[derive(Clone, Copy, Debug, PartialEq, Eq, Structural)]
pub struct OpenOptions {
    /// The open flags handed to the kernel call.
    pub flags: i32,
    /// Permission bits to create the queue with; the process umask may
    /// clear some of them.
    pub mode: u32,
    /// Requested queue capacity; zero means "not set".
    pub capacity: usize,
    /// Requested maximum message length; zero means "not set".
    pub max_msg_len: usize,
}

impl OpenOptions {
    /// The starting configuration for a given access mode: permissions
    /// default to owner-only read and write, and no capacities are set.
    fn new(flags: i32) -> (r: Self)
        ensures
            r == (OpenOptions { flags, mode: 0o600u32, capacity: 0usize, max_msg_len: 0usize }),
    {
        OpenOptions { flags, mode: 0o600, capacity: 0, max_msg_len: 0 }
    }

    /// Open the queue for receiving only.
    pub fn readonly() -> (r: Self)
        ensures
            r == (OpenOptions {
                flags: O_RDONLY,
                mode: 0o600u32,
                capacity: 0usize,
                max_msg_len: 0usize,
            }),
    {
        OpenOptions::new(O_RDONLY)
    }

    /// Open the queue for sending only.
    pub fn writeonly() -> (r: Self)
        ensures
            r == (OpenOptions {
                flags: O_WRONLY,
                mode: 0o600u32,
                capacity: 0usize,
                max_msg_len: 0usize,
            }),
    {
        OpenOptions::new(O_WRONLY)
    }

    /// Open the queue both for sending and receiving.
    pub fn readwrite() -> (r: Self)
        ensures
            r == (OpenOptions {
                flags: O_RDWR,
                mode: 0o600u32,
                capacity: 0usize,
                max_msg_len: 0usize,
            }),
    {
        OpenOptions::new(O_RDWR)
    }

    /// Set the permissions to create the queue with. Unknown bits are
    /// ignored by the kernel; the field is ignored entirely when the queue
    /// is not created.
    pub fn mode(self, mode: u32) -> (r: Self)
        ensures
            r == (OpenOptions { mode, ..self }),
    {
        OpenOptions { mode, ..self }
    }

    /// Set the maximum size of each message. If this is set, the capacity
    /// should be too, or creation may fail.
    pub fn max_msg_len(self, max_msg_len: usize) -> (r: Self)
        ensures
            r == (OpenOptions { max_msg_len, ..self }),
    {
        OpenOptions { max_msg_len, ..self }
    }

    /// Set the maximum number of messages in the queue. If this is set,
    /// the maximum message size should be too, or creation may fail.
    pub fn capacity(self, capacity: usize) -> (r: Self)
        ensures
            r == (OpenOptions { capacity, ..self }),
    {
        OpenOptions { capacity, ..self }
    }

    /// Create the queue if it does not exist.
    pub fn create(self) -> (r: Self)
        ensures
            r == (OpenOptions { flags: (self.flags | O_CREAT) & !O_EXCL, ..self }),
    {
        OpenOptions { flags: (self.flags | O_CREAT) & !O_EXCL, ..self }
    }

    /// Create a new queue, failing if it already exists.
    pub fn create_new(self) -> (r: Self)
        ensures
            r == (OpenOptions { flags: self.flags | O_CREAT | O_EXCL, ..self }),
    {
        OpenOptions { flags: self.flags | O_CREAT | O_EXCL, ..self }
    }

    /// Require the queue to already exist, failing if it does not.
    pub fn existing(self) -> (r: Self)
        ensures
            r == (OpenOptions { flags: self.flags & !(O_CREAT | O_EXCL), ..self }),
    {
        OpenOptions { flags: self.flags & !(O_CREAT | O_EXCL), ..self }
    }

    /// Open the queue in non-blocking mode: send and receive fail with
    /// [`Error::WouldBlock`] instead of waiting.
    pub fn nonblocking(self) -> (r: Self)
        ensures
            r == (OpenOptions { flags: self.flags | O_NONBLOCK, ..self }),
    {
        OpenOptions { flags: self.flags | O_NONBLOCK, ..self }
    }

    /// The capacity/size request this configuration hands to the open
    /// call: the requested pair where either value is set. A creating
    /// open always carries a request — the capability table's defaults
    /// stand in where both values are zero — because the kernel call
    /// reads the creation arguments exactly when creation is requested.
    /// A non-creating open without a request carries none, and the kernel
    /// ignores any it does carry.
    pub open spec fn spec_open_sizes(self) -> Option<(usize, usize)> {
        if self.capacity != 0 || self.max_msg_len != 0 {
            Some((self.capacity, self.max_msg_len))
        } else if self.flags & O_CREAT != 0 {
            Some(
                (
                    target_capabilities().default_capacity,
                    target_capabilities().default_max_msg_len,
                ),
            )
        } else {
            None
        }
    }

    /// Compute the capacity/size request handed to the open call.
    pub fn open_sizes(&self) -> (r: Option<(usize, usize)>)
        ensures
            r == self.spec_open_sizes(),
    {
        if self.capacity != 0 || self.max_msg_len != 0 {
            Some((self.capacity, self.max_msg_len))
        } else if self.flags & O_CREAT != 0 {
            let caps = capabilities();
            Some((caps.default_capacity, caps.default_max_msg_len))
        } else {
            None
        }
    }

    /// Open a queue with these options.
    ///
    /// The name is normalized first: a separator is prepended if missing,
    /// and a name with an embedded null byte is rejected with
    /// [`Error::InvalidInput`].
    pub fn open(&self, name: &[u8]) -> (r: Result<PosixMq, Error>)
        ensures
            !valid_name(name@) ==> (r matches Err(e) && e == Error::InvalidInput),
    {
        match encode_name(name) {
            Err(e) => Err(e),
            Ok(enc) => {
                proof {
                    lemma_encoded_cstr_shape(name@);
                }
                self.open_c(enc.as_slice())
            },
        }
    }

    /// Open a queue whose name is given in already-encoded form, without
    /// normalizing it — the way to reach a queue whose kernel name does not
    /// start with a separator.
    ///
    /// The name must already be null-terminated and free of interior null
    /// bytes; anything else is rejected with [`Error::InvalidInput`].
    pub fn open_c(&self, name: &[u8]) -> (r: Result<PosixMq, Error>)
        ensures
            !cstr_shape(name@) ==> (r matches Err(e) && e == Error::InvalidInput),
    {
        if !is_encoded_name(name) {
            return Err(Error::InvalidInput);
        }
        let sizes = self.open_sizes();
        match sys::sys_open(name, self.flags, self.mode, sizes) {
            Err(code) => Err(error_from_errno(code)),
            Ok(mqd) => {
                let mq = PosixMq::from_raw_mqd(mqd);
                // Where the kernel ignores the close-on-exec flag at open
                // time, apply it now, and propagate a failure rather than
                // suppress it.
                if capabilities().forces_cloexec_after_open {
                    match mq.set_cloexec(true) {
                        Err(e) => {
                            let _ = mq.close();
                            return Err(e);
                        },
                        Ok(()) => {},
                    }
                }
                Ok(mq)
            },
        }
    }
}

} // verus!
