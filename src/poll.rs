use vstd::prelude::*;
use crate::token::Interests;

verus! {

/// Poll bit: there is data to read.
pub const POLL_IN: i16 = 0x1;

/// Poll bit: there is urgent (priority) data to read.
pub const POLL_PRI: i16 = 0x2;

/// Poll bit: writing is now possible.
pub const POLL_OUT: i16 = 0x4;

/// Poll bit: an error condition.
pub const POLL_ERR: i16 = 0x8;

/// Poll bit: the peer hung up.
pub const POLL_HUP: i16 = 0x10;

/// Poll bit: the peer closed its writing half (a Linux extension).
pub const POLL_RDHUP: i16 = 0x2000;

/// Relies on libc::POLLIN, which is 0x1 on Linux.
#[verifier::external_body]
pub(crate) fn pollin() -> (r: i16)
    ensures
        r == POLL_IN,
{
    libc::POLLIN
}

/// Relies on libc::POLLPRI, which is 0x2 on Linux.
#[verifier::external_body]
pub(crate) fn pollpri() -> (r: i16)
    ensures
        r == POLL_PRI,
{
    libc::POLLPRI
}

/// Relies on libc::POLLOUT, which is 0x4 on Linux.
#[verifier::external_body]
pub(crate) fn pollout() -> (r: i16)
    ensures
        r == POLL_OUT,
{
    libc::POLLOUT
}

/// Relies on libc::POLLERR, which is 0x8 on Linux.
#[verifier::external_body]
pub(crate) fn pollerr() -> (r: i16)
    ensures
        r == POLL_ERR,
{
    libc::POLLERR
}

/// Relies on libc::POLLHUP, which is 0x10 on Linux.
#[verifier::external_body]
pub(crate) fn pollhup() -> (r: i16)
    ensures
        r == POLL_HUP,
{
    libc::POLLHUP
}

/// The poll mask that asks for the conditions in `interests`.
pub open spec fn poll_mask(interests: Interests) -> i16 {
    (if interests.readable { POLL_IN } else { 0i16 }) | (if interests.writable { POLL_OUT } else { 0i16 })
}

/// Translates an interest set into the poll mask submitted to the kernel:
/// readable asks for `POLL_IN`, writable for `POLL_OUT`.
pub fn interests_to_poll(interests: Interests) -> (r: i16)
    ensures
        r == poll_mask(interests),
        (r & POLL_IN != 0) == interests.readable,
        (r & POLL_OUT != 0) == interests.writable,
{
    let readable: i16 = if interests.is_readable() { pollin() } else { 0 };
    let writable: i16 = if interests.is_writable() { pollout() } else { 0 };
    let kind = readable | writable;
    let rd = interests.readable;
    let wr = interests.writable;
    assert((kind & POLL_IN != 0) == rd && (kind & POLL_OUT != 0) == wr) by (bit_vector)
        requires
            kind == (if rd { 0x1i16 } else { 0i16 }) | (if wr { 0x4i16 } else { 0i16 }),
    ;
    kind
}

} // verus!
