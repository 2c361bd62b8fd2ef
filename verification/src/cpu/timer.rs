//! The timer: when the next timer interrupt is due, and the records of pending timers,
//! ordered so that the one that expires first is the greatest.
use vstd::prelude::*;
use std::cmp::Ordering;

verus! {

/// Frequency of the time counter (ticks of `time` per second).
pub const FREQ: usize = 12_500_000;

/// Timer interrupts per second.
pub const TICKS_PER_SEC: usize = 100;

/// The hart's timer.
pub struct Handler;

impl Handler {
    /// The time of the timer interrupt that follows time `now`: one interval of
    /// `FREQ / TICKS_PER_SEC` counter ticks later.
    pub fn next_trigger(now: usize) -> (r: usize)
        requires
            now + FREQ / TICKS_PER_SEC <= usize::MAX,
        ensures
            r == now + FREQ / TICKS_PER_SEC,
            r == now + 125_000,
    {
        now + FREQ / TICKS_PER_SEC
    }
}

/// A pending timer that expires at time `expire`.
#[derive(Clone, Copy, Debug, PartialEq, Eq, Structural)]
pub struct Record {
    pub expire: usize,
}

/// The key by which records are compared: the expiry time negated as a signed word, so
/// that a later expiry gives a smaller key.
pub open spec fn spec_key(expire: usize) -> int {
    if expire <= isize::MAX {
        -expire
    } else {
        usize::MAX + 1 - expire
    }
}

/// Whether the key of a record can be computed: negating the signed word overflows for
/// exactly one expiry time.
pub open spec fn key_defined(expire: usize) -> bool {
    expire != isize::MAX + 1
}

/// The comparison of two integers.
pub open spec fn compare_ints(a: int, b: int) -> Ordering {
    if a < b {
        Ordering::Less
    } else if a == b {
        Ordering::Equal
    } else {
        Ordering::Greater
    }
}

impl Record {
    /// The negated expiry time `-(expire as isize)`.
    pub fn key(&self) -> (r: isize)
        requires
            key_defined(self.expire),
        ensures
            r == spec_key(self.expire),
    {
        if self.expire <= isize::MAX as usize {
            -(self.expire as isize)
        } else {
            ((usize::MAX - self.expire) as isize) + 1
        }
    }

    /// Records compare by their keys: the record that expires first is the greatest.
    pub fn partial_cmp(&self, other: &Record) -> (r: Option<Ordering>)
        requires
            key_defined(self.expire),
            key_defined(other.expire),
        ensures
            r == Some(compare_ints(spec_key(self.expire), spec_key(other.expire))),
    {
        let a = self.key();
        let b = other.key();
        if a < b {
            Some(Ordering::Less)
        } else if a == b {
            Some(Ordering::Equal)
        } else {
            Some(Ordering::Greater)
        }
    }
}

/// For expiry times that fit in a signed word, records are ordered by reverse expiry: a
/// record is less than another exactly when it expires later, and equal exactly when it
/// expires at the same time.
pub proof fn lemma_reverse_expiry_order(a: Record, b: Record)
    requires
        a.expire <= isize::MAX,
        b.expire <= isize::MAX,
    ensures
        (compare_ints(spec_key(a.expire), spec_key(b.expire)) == Ordering::Less) <==> a.expire > b.expire,
        (compare_ints(spec_key(a.expire), spec_key(b.expire)) == Ordering::Equal) <==> a.expire == b.expire,
        (compare_ints(spec_key(a.expire), spec_key(b.expire)) == Ordering::Greater) <==> a.expire < b.expire,
{
}

} // verus!
