//! Queue-name normalization.
//!
//! Queue names are opaque byte sequences with no assumed text encoding. The
//! kernel call wants them null-terminated and starting with exactly one
//! namespace separator; a caller may pass the name with or without the
//! leading separator. A name with an embedded null byte cannot be encoded and
//! is rejected with [`Error::InvalidInput`].

use vstd::prelude::*;

use crate::error::Error;

verus! {

/// The namespace separator that an encoded queue name begins with: the
/// byte value of `/`.
pub const SEPARATOR: u8 = 47;

/// `name` with its leading separator removed, if it has one.
pub open spec fn stripped(name: Seq<u8>) -> Seq<u8> {
    if name.len() > 0 && name[0] == SEPARATOR {
        name.skip(1)
    } else {
        name
    }
}

/// The kernel form of a queue name: exactly one leading separator, then the
/// name's own bytes, then a terminating null byte.
pub open spec fn encoded(name: Seq<u8>) -> Seq<u8> {
    seq![SEPARATOR] + stripped(name) + seq![0u8]
}

/// A name can be encoded iff it holds no embedded null byte.
pub open spec fn valid_name(name: Seq<u8>) -> bool {
    forall|i: int| 0 <= i < stripped(name).len() ==> #[trigger] stripped(name)[i] != 0
}

/// The shape the kernel call requires of an encoded name: non-empty,
/// null-terminated, and without an interior null byte.
pub open spec fn cstr_shape(s: Seq<u8>) -> bool {
    &&& s.len() >= 1
    &&& s[s.len() - 1] == 0
    &&& forall|i: int| 0 <= i < s.len() - 1 ==> #[trigger] s[i] != 0
}

/// Normalize a caller-supplied byte name into the null-terminated,
/// separator-prefixed form the kernel call requires.
///
/// If the input already starts with the separator, it is not duplicated.
pub fn encode_name(name: &[u8]) -> (r: Result<Vec<u8>, Error>)
    ensures
        r is Ok <==> valid_name(name@),
        r matches Ok(enc) ==> enc@ == encoded(name@),
        r matches Err(e) ==> e == Error::InvalidInput,
{
    let mut out: Vec<u8> = Vec::new();
    out.push(SEPARATOR);
    let start: usize = if name.len() > 0 && name[0] == SEPARATOR {
        1
    } else {
        0
    };
    let mut i: usize = start;
    while i < name.len()
        invariant
            start <= i <= name@.len(),
            start == (if name@.len() > 0 && name@[0] == SEPARATOR {
                1int
            } else {
                0int
            }),
            out@ == seq![SEPARATOR] + name@.subrange(start as int, i as int),
            forall|j: int| start <= j < i ==> #[trigger] name@[j] != 0,
        decreases name@.len() - i,
    {
        let b = name[i];
        if b == 0 {
            proof {
                assert(stripped(name@) =~= name@.subrange(start as int, name@.len() as int));
                assert(stripped(name@)[i - start] == 0);
            }
            return Err(Error::InvalidInput);
        }
        out.push(b);
        i = i + 1;
    }
    out.push(0);
    proof {
        assert(stripped(name@) =~= name@.subrange(start as int, name@.len() as int));
        assert(out@ =~= encoded(name@));
        assert forall|k: int| 0 <= k < stripped(name@).len() implies #[trigger] stripped(
            name@,
        )[k] != 0 by {
            assert(name@[k + start] != 0);
        }
    }
    Ok(out)
}

/// Decide whether `name` already has the shape the kernel call requires of
/// an encoded name: non-empty, null-terminated, no interior null byte.
pub fn is_encoded_name(name: &[u8]) -> (b: bool)
    ensures
        b == cstr_shape(name@),
{
    if name.len() == 0 {
        return false;
    }
    if name[name.len() - 1] != 0 {
        return false;
    }
    let mut i: usize = 0;
    while i < name.len() - 1
        invariant
            name@.len() >= 1,
            0 <= i <= name@.len() - 1,
            name@[name@.len() - 1] == 0,
            forall|j: int| 0 <= j < i ==> #[trigger] name@[j] != 0,
        decreases name@.len() - 1 - i,
    {
        if name[i] == 0 {
            return false;
        }
        i = i + 1;
    }
    true
}

/// Law: a name that does not start with the separator and the same name with
/// one prepended encode to the same kernel name, so opening either form
/// reaches the same underlying queue.
pub proof fn lemma_leading_separator_normalizes(name: Seq<u8>)
    requires
        name.len() == 0 || name[0] != SEPARATOR,
    ensures
        encoded(seq![SEPARATOR] + name) == encoded(name),
{
    assert(stripped(seq![SEPARATOR] + name) =~= name);
    assert(stripped(name) =~= name);
    assert(encoded(seq![SEPARATOR] + name) =~= encoded(name));
}

/// An encoded valid name has the shape the kernel call requires.
pub proof fn lemma_encoded_cstr_shape(name: Seq<u8>)
    requires
        valid_name(name),
    ensures
        cstr_shape(encoded(name)),
{
    let e = encoded(name);
    assert(e[e.len() - 1] == 0);
    assert forall|i: int| 0 <= i < e.len() - 1 implies #[trigger] e[i] != 0 by {
        if i > 0 {
            assert(e[i] == stripped(name)[i - 1]);
        }
    }
}

} // verus!
