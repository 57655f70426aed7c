use generators::errors::Error;
use generators::generators::{
    GeneralizedInputBytesGenerator, Generator, RandBytesGenerator, RandPrintablesGenerator,
};
use generators::inputs::BytesInput;
use generators::rands::ReplayState;

fn ok_bytes(r: Result<BytesInput, Error>) -> Vec<u8> {
    match r {
        Ok(i) => i.bytes().clone(),
        Err(_) => panic!("a native generator failed"),
    }
}

#[test]
fn scenario_zero_draw_coerced_to_one_byte() {
    // max_size = 10, draws [0, 200]: the zero size draw is coerced to 1,
    // then one byte is drawn as 200.
    let mut state = ReplayState::new(vec![0u64, 200]);
    let mut g: RandBytesGenerator<ReplayState> = RandBytesGenerator::new(10);
    assert_eq!(ok_bytes(g.generate(&mut state)), vec![200u8]);
}

#[test]
fn scenario_dummy_of_five() {
    // max_size = 5: generate_dummy yields five zero bytes.
    let mut state = ReplayState::new(vec![1u64, 2, 3]);
    let g: RandBytesGenerator<ReplayState> = RandBytesGenerator::new(5);
    let dummy = g.generate_dummy(&mut state);
    assert_eq!(*dummy.bytes(), vec![0u8, 0, 0, 0, 0]);
}

#[test]
fn scenario_dummy_capped_at_sixty_four() {
    // max_size = 100: the ceiling caps the dummy at 64 zero bytes.
    let mut state = ReplayState::new(vec![]);
    let g: RandBytesGenerator<ReplayState> = RandBytesGenerator::new(100);
    let dummy = g.generate_dummy(&mut state);
    assert_eq!(dummy.bytes().len(), 64);
    assert!(dummy.bytes().iter().all(|b| *b == 0));
}

#[test]
fn scenario_degenerate_bound_always_one_byte() {
    // max_size = 1: whatever the RNG produces, the output is one byte.
    let mut state = ReplayState::new(vec![999u64, 77]);
    let mut g: RandBytesGenerator<ReplayState> = RandBytesGenerator::new(1);
    assert_eq!(ok_bytes(g.generate(&mut state)), vec![77u8]);
    let mut state2 = ReplayState::new(vec![5u64, 300]);
    let mut g2: RandBytesGenerator<ReplayState> = RandBytesGenerator::new(1);
    // 300 is reduced modulo 256 to 44.
    assert_eq!(ok_bytes(g2.generate(&mut state2)), vec![44u8]);
}

#[test]
fn generate_length_within_bounds() {
    // A size draw of 7 below max_size = 10 yields exactly the next 7 draws.
    let mut state = ReplayState::new(vec![7u64, 1, 2, 3, 4, 5, 6, 7]);
    let mut g: RandBytesGenerator<ReplayState> = RandBytesGenerator::new(10);
    let bytes = ok_bytes(g.generate(&mut state));
    assert_eq!(bytes, vec![1u8, 2, 3, 4, 5, 6, 7]);
    assert!(1 <= bytes.len() && bytes.len() <= 10);
}

#[test]
fn generate_with_exhausted_source_yields_one_zero() {
    // An exhausted source answers 0: the size is coerced to 1 and the one
    // byte drawn is 0.
    let mut state = ReplayState::new(vec![]);
    let mut g: RandBytesGenerator<ReplayState> = RandBytesGenerator::new(10);
    assert_eq!(ok_bytes(g.generate(&mut state)), vec![0u8]);
}

#[test]
fn generate_with_zero_max_size_still_yields_one_byte() {
    // max_size = 0: the bounded draw answers 0 without consuming a draw,
    // the size is coerced to 1, and the first scripted draw becomes the byte.
    let mut state = ReplayState::new(vec![65u64]);
    let mut g: RandBytesGenerator<ReplayState> = RandBytesGenerator::new(0);
    assert_eq!(ok_bytes(g.generate(&mut state)), vec![65u8]);
}

#[test]
fn printables_picks_from_alphabet_in_order() {
    // Size draw 3 below max_size = 4; picks at alphabet indices 0, 36 and 62
    // give b'0', b'a' and b' '.
    let mut state = ReplayState::new(vec![3u64, 0, 36, 62]);
    let mut g: RandPrintablesGenerator<ReplayState> = RandPrintablesGenerator::new(4);
    assert_eq!(ok_bytes(g.generate(&mut state)), vec![48u8, 97, 32]);
}

#[test]
fn printables_reduce_large_draws_into_alphabet() {
    // Picks are reduced modulo the alphabet length 97: a draw of 100 picks
    // index 3, the digit b'3'.
    let mut state = ReplayState::new(vec![1u64, 100]);
    let mut g: RandPrintablesGenerator<ReplayState> = RandPrintablesGenerator::new(4);
    let bytes = ok_bytes(g.generate(&mut state));
    assert_eq!(bytes, vec![51u8]);
    for b in &bytes {
        assert!(b.is_ascii_graphic() || *b == b' ' || *b == b'\t' || *b == b'\n');
    }
}

#[test]
fn printables_dummy_is_not_alphabet_constrained() {
    // The printables dummy deliberately returns zero bytes, not printable
    // ones, with the same min(max_size, 64) sizing.
    let mut state = ReplayState::new(vec![]);
    let g: RandPrintablesGenerator<ReplayState> = RandPrintablesGenerator::new(5);
    assert_eq!(*g.generate_dummy(&mut state).bytes(), vec![0u8, 0, 0, 0, 0]);
    let g2: RandPrintablesGenerator<ReplayState> = RandPrintablesGenerator::new(200);
    assert_eq!(g2.generate_dummy(&mut state).bytes().len(), 64);
}

#[test]
fn dummy_ignores_rng_seed_and_state() {
    // Differently-seeded states give identical dummies, and the dummy call
    // consumes nothing: a generate after it sees the untouched draws.
    let mut state_a = ReplayState::new(vec![1u64, 2, 3]);
    let mut state_b = ReplayState::new(vec![900u64, 800]);
    let g: RandBytesGenerator<ReplayState> = RandBytesGenerator::new(7);
    assert_eq!(
        *g.generate_dummy(&mut state_a).bytes(),
        *g.generate_dummy(&mut state_b).bytes(),
    );
    let mut g_mut: RandBytesGenerator<ReplayState> = RandBytesGenerator::new(10);
    let after_dummy = ok_bytes(g_mut.generate(&mut state_a));
    let mut fresh = ReplayState::new(vec![1u64, 2, 3]);
    let without_dummy = ok_bytes(g_mut.generate(&mut fresh));
    assert_eq!(after_dummy, without_dummy);
}

#[test]
fn adapter_preserves_content() {
    // The adapter yields a generalized input whose bytes equal what the
    // wrapped generator produces under the same draws.
    let mut state_direct = ReplayState::new(vec![2u64, 10, 20]);
    let mut state_adapted = ReplayState::new(vec![2u64, 10, 20]);
    let mut direct: RandBytesGenerator<ReplayState> = RandBytesGenerator::new(5);
    let mut adapted = GeneralizedInputBytesGenerator::new(RandBytesGenerator::new(5));
    let direct_bytes = ok_bytes(direct.generate(&mut state_direct));
    let adapted_input = match adapted.generate(&mut state_adapted) {
        Ok(i) => i,
        Err(_) => panic!("the adapter failed"),
    };
    assert_eq!(*adapted_input.bytes(), direct_bytes);
    assert_eq!(direct_bytes, vec![10u8, 20]);
}

#[test]
fn adapter_dummy_preserves_content() {
    let mut state = ReplayState::new(vec![4u64]);
    let direct: RandBytesGenerator<ReplayState> = RandBytesGenerator::new(3);
    let adapted = GeneralizedInputBytesGenerator::new(RandBytesGenerator::new(3));
    assert_eq!(
        *adapted.generate_dummy(&mut state).bytes(),
        *direct.generate_dummy(&mut state).bytes(),
    );
}

#[test]
fn error_description_returns_message() {
    let e = Error::Foreign(String::from("boundary failed"));
    assert_eq!(e.description().as_str(), "boundary failed");
}
