//! Readiness events and the queries that interpret them.
//!
//! The queries are the only way to read an event: callers never depend on
//! the numeric value of the poll bits.

use vstd::prelude::*;
use crate::token::Token;
use crate::poll::{POLL_IN, POLL_PRI, POLL_OUT, POLL_ERR, POLL_HUP, POLL_RDHUP, pollin, pollpri, pollout, pollerr, pollhup};

verus! {

/// The readiness reported by one completion: the raw poll bits and the
/// token of the watch that completed.
#[derive(Clone, Copy, Debug, PartialEq, Eq, Structural)]
pub struct Event {
    events: i16,
    token: u64,
}

impl Event {
    /// The raw poll bits of the event.
    pub closed spec fn bits(self) -> i16 {
        self.events
    }

    /// The token carried by the event, as a raw integer.
    pub closed spec fn raw_token(self) -> u64 {
        self.token
    }

    pub fn new(events: i16, token: u64) -> (r: Event)
        ensures
            r.bits() == events,
            r.raw_token() == token,
    {
        Event { events, token }
    }
}

/// Whether the bit `bit` is set in `mask`.
pub open spec fn has_bit(mask: i16, bit: i16) -> bool {
    mask & bit != 0
}

/// Readable: data or priority data is waiting.
pub open spec fn readable_bits(mask: i16) -> bool {
    has_bit(mask, POLL_IN) || has_bit(mask, POLL_PRI)
}

/// The token of the registration that produced the event.
pub fn token(event: &Event) -> (r: Token)
    ensures
        r == Token(event.raw_token() as usize),
{
    Token(event.token as usize)
}

/// Whether the descriptor can be read without blocking, normal or priority data.
pub fn is_readable(event: &Event) -> (r: bool)
    ensures
        r == readable_bits(event.bits()),
{
    (event.events & pollin()) != 0 || (event.events & pollpri()) != 0
}

/// Whether the descriptor can be written without blocking.
pub fn is_writable(event: &Event) -> (r: bool)
    ensures
        r == has_bit(event.bits(), POLL_OUT),
{
    (event.events & pollout()) != 0
}

/// Whether an error condition was reported.
pub fn is_error(event: &Event) -> (r: bool)
    ensures
        r == has_bit(event.bits(), POLL_ERR),
{
    (event.events & pollerr()) != 0
}

/// Whether the peer hung up.
pub fn is_hup(event: &Event) -> (r: bool)
    ensures
        r == has_bit(event.bits(), POLL_HUP),
{
    (event.events & pollhup()) != 0
}

/// Whether the peer closed its writing half.
pub fn is_read_hup(event: &Event) -> (r: bool)
    ensures
        r == has_bit(event.bits(), POLL_RDHUP),
{
    (event.events & POLL_RDHUP) != 0
}

/// Whether priority data is waiting.
pub fn is_priority(event: &Event) -> (r: bool)
    ensures
        r == has_bit(event.bits(), POLL_PRI),
{
    (event.events & pollpri()) != 0
}

/// Asynchronous I/O completion is not reported by this kernel interface.
pub fn is_aio(event: &Event) -> (r: bool)
    ensures
        !r,
{
    false
}

/// List I/O completion is not reported by this kernel interface.
pub fn is_lio(event: &Event) -> (r: bool)
    ensures
        !r,
{
    false
}

/// The queries are functions of the poll bits alone: two events with the
/// same bits answer every query alike.
pub proof fn lemma_queries_depend_on_bits(a: Event, b: Event)
    requires
        a.bits() == b.bits(),
    ensures
        readable_bits(a.bits()) == readable_bits(b.bits()),
        has_bit(a.bits(), POLL_OUT) == has_bit(b.bits(), POLL_OUT),
        has_bit(a.bits(), POLL_ERR) == has_bit(b.bits(), POLL_ERR),
        has_bit(a.bits(), POLL_HUP) == has_bit(b.bits(), POLL_HUP),
        has_bit(a.bits(), POLL_RDHUP) == has_bit(b.bits(), POLL_RDHUP),
        has_bit(a.bits(), POLL_PRI) == has_bit(b.bits(), POLL_PRI),
{
}

/// A mask that holds only the readable bit is readable, and neither
/// writable, an error nor a hang-up.
pub proof fn lemma_readable_only(mask: i16)
    requires
        mask == POLL_IN,
    ensures
        readable_bits(mask),
        !has_bit(mask, POLL_OUT),
        !has_bit(mask, POLL_ERR),
        !has_bit(mask, POLL_HUP),
        !has_bit(mask, POLL_RDHUP),
        !has_bit(mask, POLL_PRI),
{
    assert(0x1i16 & 0x1i16 != 0 && 0x1i16 & 0x4i16 == 0 && 0x1i16 & 0x8i16 == 0 && 0x1i16 & 0x10i16 == 0
        && 0x1i16 & 0x2000i16 == 0 && 0x1i16 & 0x2i16 == 0) by (bit_vector);
}

} // verus!
