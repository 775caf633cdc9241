//! The table of watch records.
//!
//! Each registration becomes a watch record in a slot of the table, and the
//! slot's index is the tag handed to the kernel with the one-shot poll. A
//! completion names its watch by that tag: the table turns each completion
//! whose tag names a live slot into a readiness event and a submission that
//! rearms the same watch, and ignores a tag that names no live slot.

use vstd::prelude::*;
use crate::token::{Token, Interests};
use crate::poll::{poll_mask, interests_to_poll};
use crate::event::Event;

verus! {

/// What a registration asked for: the descriptor, the token to echo back and
/// the conditions of interest.
#[derive(Clone, Copy, Debug, PartialEq, Eq, Structural)]
pub struct Watch {
    pub fd: i32,
    pub token: Token,
    pub interests: Interests,
}

/// A one-shot poll to submit: the descriptor, the poll mask and the tag that
/// its completion will carry.
#[derive(Clone, Copy, Debug, PartialEq, Eq, Structural)]
pub struct Submission {
    pub fd: i32,
    pub mask: i16,
    pub tag: u64,
}

/// A completion taken from the kernel: the tag of the poll that completed and
/// its result, the poll bits that were ready.
#[derive(Clone, Copy, Debug, PartialEq, Eq, Structural)]
pub struct Completion {
    pub tag: u64,
    pub result: i32,
}

/// The submission that arms `w` under `tag`.
pub open spec fn submission_of(w: Watch, tag: u64) -> Submission {
    Submission { fd: w.fd, mask: poll_mask(w.interests), tag }
}

/// Whether `tag` names a live slot of `table`.
pub open spec fn live(table: Seq<Option<Watch>>, tag: u64) -> bool {
    (tag as int) < table.len() && table[tag as int].is_some()
}

/// The watch in the slot named by `tag`.
pub open spec fn watch_at(table: Seq<Option<Watch>>, tag: u64) -> Watch {
    table[tag as int].unwrap()
}

/// The completions of `cs` whose tag names a live slot, in order.
pub open spec fn reaped(table: Seq<Option<Watch>>, cs: Seq<Completion>) -> Seq<Completion>
    decreases cs.len(),
{
    if cs.len() == 0 {
        Seq::empty()
    } else {
        let rest = reaped(table, cs.drop_last());
        if live(table, cs.last().tag) {
            rest.push(cs.last())
        } else {
            rest
        }
    }
}

/// The event reported for the completion `c` of the watch `w`: the poll bits
/// of its result and the token of the watch.
pub open spec fn reports(ev: Event, w: Watch, c: Completion) -> bool {
    ev.bits() == c.result as i16 && ev.raw_token() == w.token.0 as u64
}

/// When every completion names a live slot, every completion is reaped, in
/// the order in which it came.
pub proof fn lemma_live_completions_all_reaped(table: Seq<Option<Watch>>, cs: Seq<Completion>)
    requires
        forall|j: int| 0 <= j < cs.len() ==> live(table, #[trigger] cs[j].tag),
    ensures
        reaped(table, cs) == cs,
    decreases cs.len(),
{
    if cs.len() > 0 {
        let init = cs.drop_last();
        assert forall|j: int| 0 <= j < init.len() implies live(table, #[trigger] init[j].tag) by {
            assert(init[j] == cs[j]);
        }
        lemma_live_completions_all_reaped(table, init);
        assert(live(table, cs[cs.len() - 1].tag));
        assert(init.push(cs.last()) =~= cs);
    }
}

/// A registration's token is echoed: after a watch is registered, whatever
/// is registered later, every completion that carries its tag is reaped and
/// reported with the token given at registration.
pub proof fn lemma_registered_token_echoed(
    before: Seq<Option<Watch>>,
    w: Watch,
    later: Seq<Option<Watch>>,
    c: Completion,
)
    requires
        before.len() < usize::MAX,
        c.tag == before.len() as u64,
    ensures
        live(before.push(Some(w)) + later, c.tag),
        reaped(before.push(Some(w)) + later, seq![c]) == seq![c],
        watch_at(before.push(Some(w)) + later, c.tag).token == w.token,
{
    let table = before.push(Some(w)) + later;
    assert(table[before.len() as int] == Some(w));
    lemma_live_completions_all_reaped(table, seq![c]);
}

/// A watch stays armed: the submission that rearms a reaped watch is the one
/// its registration returned, and since reaping leaves the table as it was,
/// the next completion with the same tag is reaped and reported again.
pub proof fn lemma_rearm_repeats_registration(
    before: Seq<Option<Watch>>,
    w: Watch,
    first: Completion,
    second: Completion,
)
    requires
        before.len() < usize::MAX,
        first.tag == before.len() as u64,
        second.tag == first.tag,
    ensures
        reaped(before.push(Some(w)), seq![first]) == seq![first],
        submission_of(watch_at(before.push(Some(w)), first.tag), first.tag)
            == submission_of(w, before.len() as u64),
        reaped(before.push(Some(w)), seq![second]) == seq![second],
        watch_at(before.push(Some(w)), second.tag).token == w.token,
{
    let table = before.push(Some(w));
    assert(table[before.len() as int] == Some(w));
    lemma_live_completions_all_reaped(table, seq![first]);
    lemma_live_completions_all_reaped(table, seq![second]);
}

/// Deregistering stops nothing: a table left as `deregister` leaves it reaps
/// every batch of completions exactly as before, so a live watch keeps
/// reporting with its token.
pub proof fn lemma_deregister_keeps_reporting(
    before: Seq<Option<Watch>>,
    after: Seq<Option<Watch>>,
    c: Completion,
)
    requires
        after == before,
        live(before, c.tag),
    ensures
        reaped(after, seq![c]) == seq![c],
        watch_at(after, c.tag) == watch_at(before, c.tag),
{
    lemma_live_completions_all_reaped(after, seq![c]);
}

/// Reregistering duplicates: a watch registered again before its first poll
/// completed leaves two live watches with the same token, and completions of
/// both are reaped, giving two events with that token.
pub proof fn lemma_reregister_duplicates(
    before: Seq<Option<Watch>>,
    first: Watch,
    second: Watch,
    c1: Completion,
    c2: Completion,
)
    requires
        before.len() + 1 < usize::MAX,
        first.token == second.token,
        c1.tag == before.len() as u64,
        c2.tag == (before.len() + 1) as u64,
    ensures
        reaped(before.push(Some(first)).push(Some(second)), seq![c1, c2]) == seq![c1, c2],
        watch_at(before.push(Some(first)).push(Some(second)), c1.tag).token == first.token,
        watch_at(before.push(Some(first)).push(Some(second)), c2.tag).token == first.token,
{
    let table = before.push(Some(first)).push(Some(second));
    assert(table[before.len() as int] == Some(first));
    assert(table[before.len() as int + 1] == Some(second));
    let cs = seq![c1, c2];
    assert(live(table, cs[0].tag));
    assert(live(table, cs[1].tag));
    lemma_live_completions_all_reaped(table, cs);
}

/// The watch records of a selector, indexed by tag.
pub struct WatchTable {
    slots: Vec<Option<Watch>>,
}

impl View for WatchTable {
    type V = Seq<Option<Watch>>;

    closed spec fn view(&self) -> Seq<Option<Watch>> {
        self.slots@
    }
}

impl WatchTable {
    pub fn new() -> (r: WatchTable)
        ensures
            r@ == Seq::<Option<Watch>>::empty(),
    {
        WatchTable { slots: Vec::new() }
    }

    /// The number of slots, live or not.
    pub fn len(&self) -> (r: usize)
        ensures
            r == self@.len(),
    {
        self.slots.len()
    }

    /// Whether one more registration fits.
    pub fn has_room(&self) -> (r: bool)
        ensures
            r == (self@.len() < usize::MAX),
    {
        self.slots.len() < usize::MAX
    }

    /// The watch that `tag` names, if its slot is live.
    pub fn lookup(&self, tag: u64) -> (r: Option<Watch>)
        ensures
            r == (if live(self@, tag) { Some(watch_at(self@, tag)) } else { None::<Watch> }),
    {
        if tag < self.slots.len() as u64 {
            self.slots[tag as usize]
        } else {
            None
        }
    }

    /// Records a new watch in a fresh slot and returns the submission that
    /// arms it, tagged with that slot.
    pub fn register(&mut self, fd: i32, token: Token, interests: Interests) -> (s: Submission)
        requires
            old(self)@.len() < usize::MAX,
        ensures
            final(self)@ == old(self)@.push(Some(Watch { fd, token, interests })),
            s == submission_of(Watch { fd, token, interests }, old(self)@.len() as u64),
    {
        let tag = self.slots.len() as u64;
        self.slots.push(Some(Watch { fd, token, interests }));
        Submission { fd, mask: interests_to_poll(interests), tag }
    }

    /// Updating a watch is submitting a new one: the one-shot poll has no
    /// update. A watch still pending stays live beside the new one, so both
    /// may report.
    pub fn reregister(&mut self, fd: i32, token: Token, interests: Interests) -> (s: Submission)
        requires
            old(self)@.len() < usize::MAX,
        ensures
            final(self)@ == old(self)@.push(Some(Watch { fd, token, interests })),
            s == submission_of(Watch { fd, token, interests }, old(self)@.len() as u64),
    {
        self.register(fd, token, interests)
    }

    /// Stopping a watch is not supported: every watch keeps being rearmed,
    /// and the table is left as it is.
    pub fn deregister(&mut self, fd: i32)
        ensures
            final(self)@ == old(self)@,
    {
    }

    /// Frees the slot of a watch whose submission did not reach the kernel.
    pub fn discard(&mut self, tag: u64)
        requires
            (tag as int) < old(self)@.len(),
        ensures
            final(self)@ == old(self)@.update(tag as int, None),
    {
        let len = self.slots.len();
        assert(tag < len as u64);
        self.slots.set(tag as usize, None);
    }

    /// Turns the completions taken from the kernel into readiness events,
    /// which replace the contents of `events`, and returns the submissions
    /// that rearm the watches that completed. Completions are kept in order,
    /// and one whose tag names no live slot is ignored.
    pub fn reap(&self, completions: &Vec<Completion>, events: &mut Vec<Event>) -> (rearm: Vec<Submission>)
        ensures
            final(events)@.len() == reaped(self@, completions@).len(),
            rearm@.len() == reaped(self@, completions@).len(),
            forall|i: int| 0 <= i < rearm@.len() ==> {
                let c = #[trigger] reaped(self@, completions@)[i];
                &&& live(self@, c.tag)
                &&& reports(final(events)@[i], watch_at(self@, c.tag), c)
                &&& rearm@[i] == submission_of(watch_at(self@, c.tag), c.tag)
            },
    {
        events.clear();
        let mut rearm: Vec<Submission> = Vec::new();
        let mut i: usize = 0;
        while i < completions.len()
            invariant
                i <= completions@.len(),
                events@.len() == reaped(self@, completions@.subrange(0, i as int)).len(),
                rearm@.len() == events@.len(),
                forall|j: int| 0 <= j < rearm@.len() ==> {
                    let c = #[trigger] reaped(self@, completions@.subrange(0, i as int))[j];
                    &&& live(self@, c.tag)
                    &&& reports(events@[j], watch_at(self@, c.tag), c)
                    &&& rearm@[j] == submission_of(watch_at(self@, c.tag), c.tag)
                },
            decreases completions@.len() - i,
        {
            let c = completions[i];
            let ghost prev = completions@.subrange(0, i as int);
            assert(completions@.subrange(0, i as int + 1).drop_last() =~= prev);
            match self.lookup(c.tag) {
                Some(w) => {
                    events.push(Event::new(c.result as i16, w.token.0 as u64));
                    rearm.push(Submission { fd: w.fd, mask: interests_to_poll(w.interests), tag: c.tag });
                },
                None => {},
            }
            i = i + 1;
        }
        assert(completions@.subrange(0, i as int) =~= completions@);
        rearm
    }
}

} // verus!
