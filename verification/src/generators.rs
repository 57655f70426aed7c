//! The generator contract and the native generation strategies.

use vstd::prelude::*;

use crate::errors::Error;
use crate::inputs::{BytesInput, GeneralizedInput, Input};
use crate::rands::{after_below, below_result, HasRand, Rand};
use core::marker::PhantomData;

verus! {

/// The ceiling on the length of a dummy input, whatever `max_size` says.
pub const DUMMY_BYTES_MAX: usize = 64;

/// The bytes a run of `size` uniform draws `below(256)` assembles, in draw
/// order, starting from the draw sequence `f`.
pub open spec fn drawn_bytes(f: Seq<u64>, size: nat) -> Seq<u8>
    decreases size,
{
    if size == 0 {
        Seq::empty()
    } else {
        seq![below_result(f, 256) as u8] + drawn_bytes(after_below(f, 256), (size - 1) as nat)
    }
}

/// The draw sequence left after `size` draws `below(256)` from `f`.
pub open spec fn after_drawn_bytes(f: Seq<u64>, size: nat) -> Seq<u64>
    decreases size,
{
    if size == 0 {
        f
    } else {
        after_drawn_bytes(after_below(f, 256), (size - 1) as nat)
    }
}

/// The bytes a run of `size` uniform picks from `alphabet` assembles, in
/// draw order, starting from the draw sequence `f`.
pub open spec fn picked_bytes(f: Seq<u64>, size: nat, alphabet: Seq<u8>) -> Seq<u8>
    decreases size,
{
    if size == 0 || alphabet.len() == 0 || alphabet.len() > u64::MAX {
        Seq::empty()
    } else {
        seq![alphabet[below_result(f, alphabet.len() as u64) as int]] + picked_bytes(
            after_below(f, alphabet.len() as u64),
            (size - 1) as nat,
            alphabet,
        )
    }
}

/// The draw sequence left after `size` uniform picks from `alphabet`.
pub open spec fn after_picked_bytes(f: Seq<u64>, size: nat, alphabet: Seq<u8>) -> Seq<u64>
    decreases size,
{
    if size == 0 || alphabet.len() == 0 || alphabet.len() > u64::MAX {
        f
    } else {
        after_picked_bytes(after_below(f, alphabet.len() as u64), (size - 1) as nat, alphabet)
    }
}

/// The length a generator draws for one input: one bounded draw below
/// `max_size`, with a zero draw coerced to `1` so the result is never empty.
pub open spec fn coerced_size(f: Seq<u64>, max_size: usize) -> nat {
    let size = below_result(f, max_size as u64);
    if size == 0 {
        1
    } else {
        size as nat
    }
}

/// The length of a dummy input: `max_size`, capped by [`DUMMY_BYTES_MAX`].
pub open spec fn dummy_size(max_size: usize) -> nat {
    if max_size <= DUMMY_BYTES_MAX {
        max_size as nat
    } else {
        DUMMY_BYTES_MAX as nat
    }
}

/// Generators produce one test input per call.
///
/// The contract is deterministic given the RNG trace: `generate`'s output
/// bytes and the trace it leaves behind are functions — [`Generator::gen_bytes`]
/// and [`Generator::gen_rest`] — of the generator and of the draws the state's
/// source was about to produce, and `generate_dummy` produces
/// [`Generator::dummy_bytes`] without touching the state at all.
pub trait Generator<I: Input, S: HasRand>: Sized {
    /// The bytes `generate` produces from the draw sequence `f`.
    spec fn gen_bytes(&self, f: Seq<u64>) -> Seq<u8>;

    /// The draw sequence `generate` leaves behind, starting from `f`.
    spec fn gen_rest(&self, f: Seq<u64>) -> Seq<u64>;

    /// The bytes `generate_dummy` produces.
    spec fn dummy_bytes(&self) -> Seq<u8>;

    /// Whether `generate` is guaranteed to succeed.
    spec fn never_fails(&self) -> bool;

    /// Generates a new input, consuming draws from `state`'s source.
    fn generate(&mut self, state: &mut S) -> (r: Result<I, Error>)
        ensures
            *final(self) == *old(self),
            old(self).never_fails() ==> r is Ok,
            r is Ok ==> r->Ok_0.bytes_view() == old(self).gen_bytes(
                old(state).spec_rand().future(),
            ),
            r is Ok ==> final(state).spec_rand().future() == old(self).gen_rest(
                old(state).spec_rand().future(),
            ),
    ;

    /// Generates a deterministic placeholder input; never draws from the
    /// RNG, and leaves `state` untouched (it is accepted only for interface
    /// symmetry).
    fn generate_dummy(&self, state: &mut S) -> (r: I)
        ensures
            *final(state) == *old(state),
            r.bytes_view() == self.dummy_bytes(),
    ;
}

/// Generates uniformly random byte sequences of length in
/// `[1, max(1, max_size - 1)]`.
pub struct RandBytesGenerator<S> {
    pub max_size: usize,
    pub phantom: PhantomData<S>,
}

impl<S> RandBytesGenerator<S> {
    /// Returns a new generator, generating up to `max_size` random bytes.
    pub fn new(max_size: usize) -> (r: Self)
        ensures
            r.max_size() == max_size,
    {
        RandBytesGenerator { max_size, phantom: PhantomData }
    }

    /// The configured exclusive upper bound on generated length.
    pub open spec fn max_size(&self) -> usize {
        self.max_size
    }
}

impl<S: HasRand> Generator<BytesInput, S> for RandBytesGenerator<S> {
    open spec fn gen_bytes(&self, f: Seq<u64>) -> Seq<u8> {
        drawn_bytes(after_below(f, self.max_size as u64), coerced_size(f, self.max_size))
    }

    open spec fn gen_rest(&self, f: Seq<u64>) -> Seq<u64> {
        after_drawn_bytes(after_below(f, self.max_size as u64), coerced_size(f, self.max_size))
    }

    open spec fn dummy_bytes(&self) -> Seq<u8> {
        Seq::new(dummy_size(self.max_size), |i: int| 0u8)
    }

    open spec fn never_fails(&self) -> bool {
        true
    }

    fn generate(&mut self, state: &mut S) -> (r: Result<BytesInput, Error>) {
        let ghost f0 = state.spec_rand().future();
        let mut size = state.rand_mut().below(self.max_size as u64);
        if size == 0 {
            size = 1;
        }
        let ghost f1 = state.spec_rand().future();
        let mut random_bytes: Vec<u8> = Vec::new();
        let mut i: u64 = 0;
        while i < size
            invariant
                i <= size,
                size == coerced_size(f0, self.max_size),
                random_bytes@ == drawn_bytes(f1, i as nat),
                state.spec_rand().future() == after_drawn_bytes(f1, i as nat),
            decreases size - i,
        {
            proof {
                lemma_drawn_bytes_snoc(f1, i as nat);
            }
            let b = state.rand_mut().below(256);
            random_bytes.push(b as u8);
            i = i + 1;
        }
        Ok(BytesInput::new(random_bytes))
    }

    fn generate_dummy(&self, state: &mut S) -> (r: BytesInput) {
        let size = if self.max_size < DUMMY_BYTES_MAX {
            self.max_size
        } else {
            DUMMY_BYTES_MAX
        };
        let mut zeros: Vec<u8> = Vec::new();
        let mut i: usize = 0;
        while i < size
            invariant
                i <= size,
                zeros@ == Seq::new(i as nat, |j: int| 0u8),
            decreases size - i,
        {
            zeros.push(0u8);
            i = i + 1;
            proof {
                assert(zeros@ =~= Seq::new(i as nat, |j: int| 0u8));
            }
        }
        proof {
            assert(zeros@ =~= self.dummy_bytes());
        }
        BytesInput::new(zeros)
    }
}

/// The fixed alphabet [`RandPrintablesGenerator`] draws from: digits, upper
/// and lower case letters, space, tab, newline, and the standard ASCII
/// punctuation, in that order.
pub open spec fn printables_seq() -> Seq<u8> {
    seq![
        48u8, 49, 50, 51, 52, 53, 54, 55, 56, 57, 65, 66, 67, 68, 69, 70, 71, 72, 73, 74, 75, 76,
        77, 78, 79, 80, 81, 82, 83, 84, 85, 86, 87, 88, 89, 90, 97, 98, 99, 100, 101, 102, 103,
        104, 105, 106, 107, 108, 109, 110, 111, 112, 113, 114, 115, 116, 117, 118, 119, 120, 121,
        122, 32, 9, 10, 33, 34, 35, 36, 37, 38, 39, 40, 41, 42, 43, 44, 45, 46, 47, 58, 59, 60,
        61, 62, 63, 64, 91, 92, 93, 94, 95, 96, 123, 124, 125, 126,
    ]
}

/// The printable alphabet as an owned byte vector.
fn printables() -> (r: Vec<u8>)
    ensures
        r@ == printables_seq(),
{
    let r: Vec<u8> = vec![
        48u8, 49, 50, 51, 52, 53, 54, 55, 56, 57, 65, 66, 67, 68, 69, 70, 71, 72, 73, 74, 75, 76,
        77, 78, 79, 80, 81, 82, 83, 84, 85, 86, 87, 88, 89, 90, 97, 98, 99, 100, 101, 102, 103,
        104, 105, 106, 107, 108, 109, 110, 111, 112, 113, 114, 115, 116, 117, 118, 119, 120, 121,
        122, 32, 9, 10, 33, 34, 35, 36, 37, 38, 39, 40, 41, 42, 43, 44, 45, 46, 47, 58, 59, 60,
        61, 62, 63, 64, 91, 92, 93, 94, 95, 96, 123, 124, 125, 126,
    ];
    proof {
        assert(r@ =~= printables_seq());
    }
    r
}

/// Generates random sequences of printable characters, with the same sizing
/// and zero-coercion policy as [`RandBytesGenerator`]; each byte is chosen
/// uniformly from [`printables_seq`].
pub struct RandPrintablesGenerator<S> {
    pub max_size: usize,
    pub phantom: PhantomData<S>,
}

impl<S> RandPrintablesGenerator<S> {
    /// Creates a new generator, generating up to `max_size` random printable
    /// characters.
    pub fn new(max_size: usize) -> (r: Self)
        ensures
            r.max_size() == max_size,
    {
        RandPrintablesGenerator { max_size, phantom: PhantomData }
    }

    /// The configured exclusive upper bound on generated length.
    pub open spec fn max_size(&self) -> usize {
        self.max_size
    }
}

impl<S: HasRand> Generator<BytesInput, S> for RandPrintablesGenerator<S> {
    open spec fn gen_bytes(&self, f: Seq<u64>) -> Seq<u8> {
        picked_bytes(
            after_below(f, self.max_size as u64),
            coerced_size(f, self.max_size),
            printables_seq(),
        )
    }

    open spec fn gen_rest(&self, f: Seq<u64>) -> Seq<u64> {
        after_picked_bytes(
            after_below(f, self.max_size as u64),
            coerced_size(f, self.max_size),
            printables_seq(),
        )
    }

    open spec fn dummy_bytes(&self) -> Seq<u8> {
        Seq::new(dummy_size(self.max_size), |i: int| 0u8)
    }

    open spec fn never_fails(&self) -> bool {
        true
    }

    fn generate(&mut self, state: &mut S) -> (r: Result<BytesInput, Error>) {
        let ghost f0 = state.spec_rand().future();
        let mut size = state.rand_mut().below(self.max_size as u64);
        if size == 0 {
            size = 1;
        }
        let ghost f1 = state.spec_rand().future();
        let alphabet = printables();
        let mut random_bytes: Vec<u8> = Vec::new();
        let mut i: u64 = 0;
        while i < size
            invariant
                i <= size,
                size == coerced_size(f0, self.max_size),
                alphabet@ == printables_seq(),
                random_bytes@ == picked_bytes(f1, i as nat, printables_seq()),
                state.spec_rand().future() == after_picked_bytes(f1, i as nat, printables_seq()),
            decreases size - i,
        {
            proof {
                lemma_picked_bytes_snoc(f1, i as nat, printables_seq());
            }
            let b = state.rand_mut().pick(alphabet.as_slice());
            random_bytes.push(b);
            i = i + 1;
        }
        Ok(BytesInput::new(random_bytes))
    }

    fn generate_dummy(&self, state: &mut S) -> (r: BytesInput) {
        let size = if self.max_size < DUMMY_BYTES_MAX {
            self.max_size
        } else {
            DUMMY_BYTES_MAX
        };
        let mut zeros: Vec<u8> = Vec::new();
        let mut i: usize = 0;
        while i < size
            invariant
                i <= size,
                zeros@ == Seq::new(i as nat, |j: int| 0u8),
            decreases size - i,
        {
            zeros.push(0u8);
            i = i + 1;
            proof {
                assert(zeros@ =~= Seq::new(i as nat, |j: int| 0u8));
            }
        }
        proof {
            assert(zeros@ =~= self.dummy_bytes());
        }
        BytesInput::new(zeros)
    }
}

/// A generator that produces [`GeneralizedInput`]s by wrapping a
/// [`BytesInput`] generator; it forwards both operations unchanged and
/// re-shapes the produced bytes losslessly.
pub struct GeneralizedInputBytesGenerator<G, S> {
    pub bytes_generator: G,
    pub phantom: PhantomData<S>,
}

impl<G, S> GeneralizedInputBytesGenerator<G, S> where
    S: HasRand,
    G: Generator<BytesInput, S>,
 {
    /// Creates a new adapter by wrapping a bytes generator.
    pub fn new(bytes_generator: G) -> (r: Self)
        ensures
            r.inner() == bytes_generator,
    {
        GeneralizedInputBytesGenerator { bytes_generator, phantom: PhantomData }
    }

    /// The wrapped bytes generator.
    pub open spec fn inner(&self) -> G {
        self.bytes_generator
    }
}

impl<G, S> Generator<GeneralizedInput, S> for GeneralizedInputBytesGenerator<G, S> where
    S: HasRand,
    G: Generator<BytesInput, S>,
 {
    open spec fn gen_bytes(&self, f: Seq<u64>) -> Seq<u8> {
        self.bytes_generator.gen_bytes(f)
    }

    open spec fn gen_rest(&self, f: Seq<u64>) -> Seq<u64> {
        self.bytes_generator.gen_rest(f)
    }

    open spec fn dummy_bytes(&self) -> Seq<u8> {
        self.bytes_generator.dummy_bytes()
    }

    open spec fn never_fails(&self) -> bool {
        self.bytes_generator.never_fails()
    }

    fn generate(&mut self, state: &mut S) -> (r: Result<GeneralizedInput, Error>) {
        match self.bytes_generator.generate(state) {
            Ok(bytes) => Ok(GeneralizedInput::from_bytes_input(bytes)),
            Err(e) => Err(e),
        }
    }

    fn generate_dummy(&self, state: &mut S) -> (r: GeneralizedInput) {
        GeneralizedInput::from_bytes_input(self.bytes_generator.generate_dummy(state))
    }
}

/// Adapter content-preservation: the adapter's generated bytes, leftover
/// draw sequence, dummy bytes and fallibility are exactly those of the
/// generator it wraps, for every draw sequence.
pub proof fn lemma_adapter_preserves_content<G, S>(
    adapter: GeneralizedInputBytesGenerator<G, S>,
    f: Seq<u64>,
) where S: HasRand, G: Generator<BytesInput, S>
    ensures
        adapter.gen_bytes(f) == adapter.inner().gen_bytes(f),
        adapter.gen_rest(f) == adapter.inner().gen_rest(f),
        adapter.dummy_bytes() == adapter.inner().dummy_bytes(),
        adapter.never_fails() == adapter.inner().never_fails(),
{
}

/// Appending one more draw to a run of draws appends one byte.
proof fn lemma_drawn_bytes_snoc(f: Seq<u64>, size: nat)
    ensures
        drawn_bytes(f, size + 1) == drawn_bytes(f, size).push(
            below_result(after_drawn_bytes(f, size), 256) as u8,
        ),
        after_drawn_bytes(f, size + 1) == after_below(after_drawn_bytes(f, size), 256),
    decreases size,
{
    reveal_with_fuel(drawn_bytes, 2);
    reveal_with_fuel(after_drawn_bytes, 2);
    if size == 0 {
        assert(drawn_bytes(f, 1) =~= drawn_bytes(f, 0).push(below_result(f, 256) as u8));
    } else {
        let tail = after_below(f, 256);
        lemma_drawn_bytes_snoc(tail, (size - 1) as nat);
        assert(drawn_bytes(f, size + 1) == seq![below_result(f, 256) as u8] + drawn_bytes(
            tail,
            size,
        ));
        assert(drawn_bytes(f, size) == seq![below_result(f, 256) as u8] + drawn_bytes(
            tail,
            (size - 1) as nat,
        ));
        assert(after_drawn_bytes(f, size) == after_drawn_bytes(tail, (size - 1) as nat));
        assert(after_drawn_bytes(f, size + 1) == after_drawn_bytes(tail, size));
        assert(drawn_bytes(f, size + 1) =~= drawn_bytes(f, size).push(
            below_result(after_drawn_bytes(f, size), 256) as u8,
        ));
    }
}

/// Appending one more pick to a run of picks appends one byte.
proof fn lemma_picked_bytes_snoc(f: Seq<u64>, size: nat, alphabet: Seq<u8>)
    requires
        1 <= alphabet.len() <= u64::MAX,
    ensures
        picked_bytes(f, size + 1, alphabet) == picked_bytes(f, size, alphabet).push(
            alphabet[below_result(after_picked_bytes(f, size, alphabet), alphabet.len() as u64) as int],
        ),
        after_picked_bytes(f, size + 1, alphabet) == after_below(
            after_picked_bytes(f, size, alphabet),
            alphabet.len() as u64,
        ),
    decreases size,
{
    reveal_with_fuel(picked_bytes, 2);
    reveal_with_fuel(after_picked_bytes, 2);
    let bound = alphabet.len() as u64;
    if size == 0 {
        assert(picked_bytes(f, 1, alphabet) =~= picked_bytes(f, 0, alphabet).push(
            alphabet[below_result(f, bound) as int],
        ));
    } else {
        let tail = after_below(f, bound);
        lemma_picked_bytes_snoc(tail, (size - 1) as nat, alphabet);
        assert(picked_bytes(f, size + 1, alphabet) == seq![alphabet[below_result(f, bound) as int]]
            + picked_bytes(tail, size, alphabet));
        assert(picked_bytes(f, size, alphabet) == seq![alphabet[below_result(f, bound) as int]]
            + picked_bytes(tail, (size - 1) as nat, alphabet));
        assert(after_picked_bytes(f, size, alphabet) == after_picked_bytes(
            tail,
            (size - 1) as nat,
            alphabet,
        ));
        assert(after_picked_bytes(f, size + 1, alphabet) == after_picked_bytes(
            tail,
            size,
            alphabet,
        ));
        assert(picked_bytes(f, size + 1, alphabet) =~= picked_bytes(f, size, alphabet).push(
            alphabet[below_result(after_picked_bytes(f, size, alphabet), bound) as int],
        ));
    }
}

/// A run of draws produces exactly one byte per draw.
pub proof fn lemma_drawn_bytes_len(f: Seq<u64>, size: nat)
    ensures
        drawn_bytes(f, size).len() == size,
    decreases size,
{
    if size > 0 {
        lemma_drawn_bytes_len(after_below(f, 256), (size - 1) as nat);
    }
}

/// A run of picks produces exactly one byte per pick.
pub proof fn lemma_picked_bytes_len(f: Seq<u64>, size: nat, alphabet: Seq<u8>)
    requires
        1 <= alphabet.len() <= u64::MAX,
    ensures
        picked_bytes(f, size, alphabet).len() == size,
    decreases size,
{
    if size > 0 {
        lemma_picked_bytes_len(after_below(f, alphabet.len() as u64), (size - 1) as nat, alphabet);
    }
}

/// Every byte a run of picks produces is a member of the alphabet.
proof fn lemma_picked_bytes_in_alphabet(f: Seq<u64>, size: nat, alphabet: Seq<u8>)
    requires
        1 <= alphabet.len() <= u64::MAX,
    ensures
        forall|i: int|
            0 <= i < picked_bytes(f, size, alphabet).len() ==> alphabet.contains(
                #[trigger] picked_bytes(f, size, alphabet)[i],
            ),
    decreases size,
{
    if size > 0 {
        reveal_with_fuel(picked_bytes, 2);
        let bound = alphabet.len() as u64;
        let idx = below_result(f, bound) as int;
        let head = alphabet[idx];
        let rest = picked_bytes(after_below(f, bound), (size - 1) as nat, alphabet);
        lemma_picked_bytes_in_alphabet(after_below(f, bound), (size - 1) as nat, alphabet);
        assert(picked_bytes(f, size, alphabet) == seq![head] + rest);
        assert(0 <= idx < alphabet.len() && alphabet[idx] == head);
        assert(alphabet.contains(head));
        assert forall|i: int|
            0 <= i < picked_bytes(f, size, alphabet).len() implies alphabet.contains(
            #[trigger] picked_bytes(f, size, alphabet)[i],
        ) by {
            if i == 0 {
                assert(picked_bytes(f, size, alphabet)[0] == head);
            } else {
                assert(picked_bytes(f, size, alphabet)[i] == rest[i - 1]);
            }
        }
    }
}

/// The length a generator draws is never `0`, and never reaches `max_size`
/// except in the degenerate bound cases `max_size <= 1`, where it is `1`.
pub proof fn lemma_coerced_size_bounds(f: Seq<u64>, max_size: usize)
    ensures
        1 <= coerced_size(f, max_size),
        max_size >= 1 ==> coerced_size(f, max_size) <= max_size,
        max_size >= 2 ==> coerced_size(f, max_size) <= max_size - 1,
        max_size <= 1 ==> coerced_size(f, max_size) == 1,
{
}

/// For every configuration with `max_size >= 1` and every draw sequence, the
/// bytes `RandBytesGenerator::generate` produces number at least `1` and at
/// most `max_size`: a zero draw is coerced to length `1`, and any other draw
/// lies below `max_size`.
pub proof fn lemma_rand_bytes_generate_len<S: HasRand>(g: RandBytesGenerator<S>, f: Seq<u64>)
    requires
        g.max_size() >= 1,
    ensures
        1 <= g.gen_bytes(f).len(),
        g.gen_bytes(f).len() <= g.max_size(),
        g.max_size() == 1 ==> g.gen_bytes(f).len() == 1,
{
    lemma_coerced_size_bounds(f, g.max_size());
    lemma_drawn_bytes_len(after_below(f, g.max_size() as u64), coerced_size(f, g.max_size()));
}

/// The sizing policy of `RandPrintablesGenerator` is identical to that of
/// `RandBytesGenerator`: at least `1` byte, at most `max_size`.
pub proof fn lemma_rand_printables_generate_len<S: HasRand>(
    g: RandPrintablesGenerator<S>,
    f: Seq<u64>,
)
    requires
        g.max_size() >= 1,
    ensures
        1 <= g.gen_bytes(f).len(),
        g.gen_bytes(f).len() <= g.max_size(),
        g.max_size() == 1 ==> g.gen_bytes(f).len() == 1,
{
    lemma_coerced_size_bounds(f, g.max_size());
    lemma_picked_bytes_len(
        after_below(f, g.max_size() as u64),
        coerced_size(f, g.max_size()),
        printables_seq(),
    );
}

/// Every byte `RandPrintablesGenerator::generate` produces is a member of
/// the printable alphabet, for every configuration and draw sequence.
pub proof fn lemma_rand_printables_generate_in_alphabet<S: HasRand>(
    g: RandPrintablesGenerator<S>,
    f: Seq<u64>,
)
    ensures
        forall|i: int|
            0 <= i < g.gen_bytes(f).len() ==> printables_seq().contains(#[trigger] g.gen_bytes(f)[i]),
{
    lemma_picked_bytes_in_alphabet(
        after_below(f, g.max_size() as u64),
        coerced_size(f, g.max_size()),
        printables_seq(),
    );
}

/// A dummy input is reproducible: it is a function of the configured
/// `max_size` alone, never of the state or its RNG, so two calls with
/// differently-seeded states and identical configuration yield identical
/// output. (That no call reads or advances the RNG is part of
/// `generate_dummy`'s contract: the state is left untouched.)
pub proof fn lemma_dummy_reproducible<S1: HasRand, S2: HasRand>(
    bytes_a: RandBytesGenerator<S1>,
    bytes_b: RandBytesGenerator<S2>,
    printables_a: RandPrintablesGenerator<S1>,
    printables_b: RandPrintablesGenerator<S2>,
)
    requires
        bytes_a.max_size() == bytes_b.max_size(),
        printables_a.max_size() == printables_b.max_size(),
    ensures
        bytes_a.dummy_bytes() == bytes_b.dummy_bytes(),
        printables_a.dummy_bytes() == printables_b.dummy_bytes(),
        bytes_a.max_size() == printables_a.max_size() ==> bytes_a.dummy_bytes()
            == printables_a.dummy_bytes(),
{
    assert(bytes_a.dummy_bytes() =~= bytes_b.dummy_bytes());
    assert(printables_a.dummy_bytes() =~= printables_b.dummy_bytes());
    if bytes_a.max_size() == printables_a.max_size() {
        assert(bytes_a.dummy_bytes() =~= printables_a.dummy_bytes());
    }
}

/// A dummy input consists of `min(max_size, DUMMY_BYTES_MAX)` zero bytes,
/// for both native strategies: the printables strategy deliberately does not
/// constrain its dummy output to the printable alphabet.
pub proof fn lemma_dummy_bytes_shape<S: HasRand>(
    bytes_gen: RandBytesGenerator<S>,
    printables_gen: RandPrintablesGenerator<S>,
)
    ensures
        bytes_gen.dummy_bytes().len() == dummy_size(bytes_gen.max_size()),
        printables_gen.dummy_bytes().len() == dummy_size(printables_gen.max_size()),
        dummy_size(bytes_gen.max_size()) == if bytes_gen.max_size() <= DUMMY_BYTES_MAX {
            bytes_gen.max_size() as nat
        } else {
            DUMMY_BYTES_MAX as nat
        },
        forall|i: int| 0 <= i < bytes_gen.dummy_bytes().len() ==> bytes_gen.dummy_bytes()[i] == 0u8,
        forall|i: int|
            0 <= i < printables_gen.dummy_bytes().len() ==> printables_gen.dummy_bytes()[i] == 0u8,
{
}

} // verus!
