use duplex_audio::processor::GainProcessor;
use duplex_audio::processor::NoiseGateProcessor;
use duplex_audio::processor::PassThroughProcessor;
use duplex_audio::processor::Processor;
use duplex_audio::processor::ProcessorChain;
use duplex_audio::processor::SAMPLE_UNIT;

#[test]
fn pass_through_is_identity() {
    let mut p = PassThroughProcessor;
    let mut buffer: Vec<i64> = vec![5, -7, 0, SAMPLE_UNIT, -SAMPLE_UNIT];
    p.process(&mut buffer);
    assert_eq!(buffer, vec![5, -7, 0, SAMPLE_UNIT, -SAMPLE_UNIT]);
}

#[test]
fn pass_through_on_empty_buffer() {
    let mut p = PassThroughProcessor;
    let mut buffer: Vec<i64> = Vec::new();
    p.process(&mut buffer);
    assert!(buffer.is_empty());
}

#[test]
fn gain_scales_exactly_when_in_range() {
    // A factor of one half applied to full scale and below: exact products.
    let mut p = GainProcessor::new(SAMPLE_UNIT / 2);
    let mut buffer: Vec<i64> = vec![SAMPLE_UNIT, 400_000, -400_000, 0];
    p.process(&mut buffer);
    assert_eq!(buffer, vec![SAMPLE_UNIT / 2, 200_000, -200_000, 0]);
}

#[test]
fn gain_doubles_small_samples() {
    let mut p = GainProcessor::new(2 * SAMPLE_UNIT);
    let mut buffer: Vec<i64> = vec![40_000, 400_000];
    p.process(&mut buffer);
    assert_eq!(buffer, vec![80_000, 800_000]);
}

#[test]
fn gain_clamps_to_full_scale() {
    let mut p = GainProcessor::new(2 * SAMPLE_UNIT);
    let mut buffer: Vec<i64> = vec![900_000, -900_000, SAMPLE_UNIT];
    p.process(&mut buffer);
    assert_eq!(buffer, vec![SAMPLE_UNIT, -SAMPLE_UNIT, SAMPLE_UNIT]);
}

#[test]
fn gain_with_negative_factor_flips_sign() {
    let mut p = GainProcessor::new(-SAMPLE_UNIT);
    let mut buffer: Vec<i64> = vec![250_000, -250_000, 0];
    p.process(&mut buffer);
    assert_eq!(buffer, vec![-250_000, 250_000, 0]);
}

#[test]
fn gain_truncates_toward_zero() {
    // One third of full scale: 1 * 333_333 / 1_000_000 truncates to 0,
    // for positive and negative samples alike.
    let mut p = GainProcessor::new(333_333);
    let mut buffer: Vec<i64> = vec![1, -1, 3, -3];
    p.process(&mut buffer);
    assert_eq!(buffer, vec![0, 0, 0, 0]);
}

#[test]
fn noise_gate_silences_below_threshold() {
    let mut p = NoiseGateProcessor::new(100_000);
    let mut buffer: Vec<i64> = vec![99_999, -99_999, 0, 50_000];
    p.process(&mut buffer);
    assert_eq!(buffer, vec![0, 0, 0, 0]);
}

#[test]
fn noise_gate_passes_at_and_above_threshold() {
    // The silencing condition is strictly below: a sample exactly at the
    // threshold goes through unchanged.
    let mut p = NoiseGateProcessor::new(100_000);
    let mut buffer: Vec<i64> = vec![100_000, -100_000, 100_001, 800_000];
    p.process(&mut buffer);
    assert_eq!(buffer, vec![100_000, -100_000, 100_001, 800_000]);
}

#[test]
fn empty_chain_is_identity() {
    let mut chain = ProcessorChain::new();
    let mut buffer: Vec<i64> = vec![1, 2, 3];
    chain.process(&mut buffer);
    assert_eq!(buffer, vec![1, 2, 3]);

    let mut empty: Vec<i64> = Vec::new();
    chain.process(&mut empty);
    assert!(empty.is_empty());
}

#[test]
fn chain_applies_gain_then_gate_in_order() {
    // Gain of two first doubles [0.04, 0.4] to [0.08, 0.8]; the noise
    // gate at 0.1 then zeroes the sample that stayed below it.
    let mut chain = ProcessorChain::new();
    chain.add_processor(Processor::Gain(GainProcessor::new(2 * SAMPLE_UNIT)));
    chain.add_processor(Processor::NoiseGate(NoiseGateProcessor::new(100_000)));
    let mut buffer: Vec<i64> = vec![40_000, 400_000];
    chain.process(&mut buffer);
    assert_eq!(buffer, vec![0, 800_000]);
}

#[test]
fn chain_order_matters() {
    // The opposite order gates [0.04, 0.4] to [0, 0.4] first, then doubles.
    let mut chain = ProcessorChain::new();
    chain.add_processor(Processor::NoiseGate(NoiseGateProcessor::new(100_000)));
    chain.add_processor(Processor::Gain(GainProcessor::new(2 * SAMPLE_UNIT)));
    let mut buffer: Vec<i64> = vec![40_000, 400_000];
    chain.process(&mut buffer);
    assert_eq!(buffer, vec![0, 800_000]);
    // Same values by coincidence of the zeroing; a sample between the
    // two thresholds shows the difference.
    let mut chain2 = ProcessorChain::new();
    chain2.add_processor(Processor::NoiseGate(NoiseGateProcessor::new(100_000)));
    chain2.add_processor(Processor::Gain(GainProcessor::new(2 * SAMPLE_UNIT)));
    let mut b2: Vec<i64> = vec![60_000];
    chain2.process(&mut b2);
    // Gated away before the gain could lift it over the threshold.
    assert_eq!(b2, vec![0]);

    let mut chain3 = ProcessorChain::new();
    chain3.add_processor(Processor::Gain(GainProcessor::new(2 * SAMPLE_UNIT)));
    chain3.add_processor(Processor::NoiseGate(NoiseGateProcessor::new(100_000)));
    let mut b3: Vec<i64> = vec![60_000];
    chain3.process(&mut b3);
    // Doubled to 0.12 first, which clears the threshold.
    assert_eq!(b3, vec![120_000]);
}

#[test]
fn chain_with_pass_through_stage() {
    let mut chain = ProcessorChain::new();
    chain.add_processor(Processor::PassThrough(PassThroughProcessor));
    chain.add_processor(Processor::Gain(GainProcessor::new(SAMPLE_UNIT)));
    let mut buffer: Vec<i64> = vec![123_456, -654_321];
    chain.process(&mut buffer);
    assert_eq!(buffer, vec![123_456, -654_321]);
}
