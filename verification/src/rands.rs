//! The random-number capability consumed by the native generator strategies.
//!
//! The capability is deterministic given the sequence of raw draws the source
//! will produce, which its specification exposes as [`Rand::future`]. Every
//! contract in this crate that mentions randomness is stated over that
//! sequence, so that two runs over identical draw sequences provably produce
//! identical outputs.

use vstd::prelude::*;

verus! {

/// The raw draw a bounded draw reduces: the front of `f` taken modulo
/// `bound`, or `0` when `bound` is `0` or no draw remains.
pub open spec fn below_result(f: Seq<u64>, bound: u64) -> u64 {
    if bound == 0 || f.len() == 0 {
        0
    } else {
        f[0] % bound
    }
}

/// The draw sequence left after one bounded draw: unchanged when `bound` is
/// `0` (no draw is consumed) or when no draw remains, else the tail.
pub open spec fn after_below(f: Seq<u64>, bound: u64) -> Seq<u64> {
    if bound == 0 || f.len() == 0 {
        f
    } else {
        f.drop_first()
    }
}

/// A deterministic-given-trace random-number source.
///
/// `below(bound)` reduces the next raw draw into `[0, bound)`; `pick` chooses
/// one element of a non-empty slice. A draw with `bound == 0` answers `0`
/// without consuming anything; a source whose trace is exhausted answers `0`
/// and stays exhausted.
pub trait Rand: Sized {
    /// The raw draws this source will produce, in order.
    spec fn future(&self) -> Seq<u64>;

    /// Draws one value uniformly from `[0, bound)`.
    fn below(&mut self, bound: u64) -> (r: u64)
        ensures
            bound != 0 ==> r < bound,
            r == below_result(old(self).future(), bound),
            final(self).future() == after_below(old(self).future(), bound),
    ;

    /// Chooses one element of `items` uniformly.
    fn pick(&mut self, items: &[u8]) -> (r: u8)
        requires
            items@.len() >= 1,
            items@.len() <= u64::MAX,
        ensures
            r == items@[below_result(old(self).future(), items@.len() as u64) as int],
            final(self).future() == after_below(old(self).future(), items@.len() as u64),
    ;
}

/// A random-number source that replays a scripted sequence of raw draws and
/// answers `0` once the script is exhausted.
pub struct ReplayRand {
    pub draws: Vec<u64>,
    pub next: usize,
}

impl Rand for ReplayRand {
    open spec fn future(&self) -> Seq<u64> {
        if self.next <= self.draws@.len() {
            self.draws@.skip(self.next as int)
        } else {
            Seq::empty()
        }
    }

    fn below(&mut self, bound: u64) -> (r: u64) {
        if bound == 0 {
            return 0;
        }
        if self.next < self.draws.len() {
            let raw = self.draws[self.next];
            self.next = self.next + 1;
            raw % bound
        } else {
            0
        }
    }

    fn pick(&mut self, items: &[u8]) -> (r: u8) {
        let idx = self.below(items.len() as u64);
        items[idx as usize]
    }
}

impl ReplayRand {
    /// A source that will produce exactly `draws`, in order, then zeros.
    pub fn new(draws: Vec<u64>) -> (r: Self)
        ensures
            r.future() == draws@,
    {
        ReplayRand { draws, next: 0 }
    }
}

/// A fuzzing state that exposes a random-number source.
pub trait HasRand: Sized {
    /// The kind of random-number source this state holds.
    type R: Rand;

    /// The source this state currently holds.
    spec fn spec_rand(&self) -> Self::R;

    /// Exclusive access to the held source; nothing else of the state
    /// changes through the returned reference.
    fn rand_mut(&mut self) -> (r: &mut Self::R)
        ensures
            *r == old(self).spec_rand(),
            final(self).spec_rand() == *final(r),
    ;
}

/// A minimal fuzzing state: it owns a [`ReplayRand`] and nothing else.
pub struct ReplayState {
    pub rand: ReplayRand,
}

impl HasRand for ReplayState {
    type R = ReplayRand;

    open spec fn spec_rand(&self) -> ReplayRand {
        self.rand
    }

    fn rand_mut(&mut self) -> (r: &mut ReplayRand) {
        &mut self.rand
    }
}

impl ReplayState {
    /// A state whose source will produce exactly `draws`, then zeros.
    pub fn new(draws: Vec<u64>) -> (r: Self)
        ensures
            r.spec_rand().future() == draws@,
    {
        ReplayState { rand: ReplayRand::new(draws) }
    }
}

} // verus!
