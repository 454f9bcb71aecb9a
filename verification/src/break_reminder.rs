//! A break: one reminder and its acknowledgement.

use crate::scheduler::BreakRecord;
use crate::time::{Clock, Timestamp};
use uuid::Uuid;
use vstd::prelude::*;

verus! {

/// The bits of a reminder id that say how it was made.
pub const ID_KIND_MASK: u128 = 0x0000_0000_0000_f000_c000_0000_0000_0000;

/// What those bits hold in an id that was drawn at random.
pub const ID_KIND_RANDOM: u128 = 0x0000_0000_0000_4000_8000_0000_0000_0000;

/// Whether `id` is marked as drawn at random: a version 4 UUID in the
/// standard variant.
pub open spec fn is_random_id(id: u128) -> bool {
    id & ID_KIND_MASK == ID_KIND_RANDOM
}

/// An id that is marked as drawn at random is never the nil id.
pub proof fn lemma_random_id_is_not_nil(id: u128)
    requires
        is_random_id(id),
    ensures
        id != BreakRecord::nil_id(),
{
    assert(id & 0x0000_0000_0000_f000_c000_0000_0000_0000
        == 0x0000_0000_0000_4000_8000_0000_0000_0000 ==> id != 0) by (bit_vector);
}

/// Details about a break.
#[derive(Clone, Copy, Debug, PartialEq, Eq)]
pub struct Break {
    /// The id of the break.
    pub id: u128,
    /// When the break started.
    pub started: Timestamp,
    /// If the break has finished, when it was finished.
    pub finished: Option<Timestamp>,
}

impl View for Break {
    type V = BreakRecord;

    open spec fn view(&self) -> BreakRecord {
        BreakRecord {
            id: self.id,
            started: self.started@,
            finished: match self.finished {
                Some(at) => Some(at@),
                None => None,
            },
        }
    }
}

impl Break {
    /// Constructs a new break that starts now, by `clock`, under an id drawn
    /// at random. It is outstanding, and its id is never the nil id.
    pub fn new(clock: &mut Clock) -> (issued: Break)
        ensures
            final(clock)@ >= old(clock)@,
            issued@ == BreakRecord::issued(issued.id, final(clock)@),
            is_random_id(issued.id),
            issued.id != BreakRecord::nil_id(),
    {
        let now = clock.now();
        let id = random_id();
        proof {
            lemma_random_id_is_not_nil(id);
        }
        Break::new_at(id, now)
    }

    /// The break that starts at `now` under `id`, not yet finished.
    pub fn new_at(id: u128, now: Timestamp) -> (issued: Break)
        ensures
            issued@ == BreakRecord::issued(id, now@),
    {
        Break { id, started: now, finished: None }
    }

    /// The break a notifier starts with: under the nil id, started and
    /// finished at `now`, so that no reminder is owed yet.
    pub fn settled_at(now: Timestamp) -> (settled: Break)
        ensures
            settled@ == BreakRecord::settled(now@),
    {
        Break { id: 0, started: now, finished: Some(now) }
    }

    /// Whether the break still waits to be finished.
    pub fn is_outstanding(&self) -> (outstanding: bool)
        ensures
            outstanding == self@.is_outstanding(),
    {
        self.finished.is_none()
    }

    /// Takes an acknowledgement for `id` that arrived at `now`. Where `id` is
    /// this break's id the break is finished at `now`; where it is not,
    /// nothing changes. Returns whether the id was this break's.
    pub fn acknowledge_at(&mut self, id: u128, now: Timestamp) -> (matched: bool)
        ensures
            matched == (id == old(self).id),
            final(self)@ == old(self)@.acknowledge(id, now@),
    {
        if self.id == id {
            self.finished = Some(now);
            true
        } else {
            false
        }
    }
}

/// `uuid::Uuid::new_v4`, handed out as a number (`Uuid::as_u128`): a UUID
/// whose bits come from the system's random source, but for the version
/// nibble, which is 4, and the two variant bits, which are `10`. Only those
/// six bits are claimed. Where the system has no random source to offer, the
/// call panics.
#[verifier::external_body]
pub(crate) fn random_id() -> (id: u128)
    ensures
        is_random_id(id),
{
    Uuid::new_v4().as_u128()
}

} // verus!
