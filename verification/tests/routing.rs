use duplex_audio::audio_io::AudioError;
use duplex_audio::audio_io::SupportedConfigRange;
use duplex_audio::config::AudioConfig;
use duplex_audio::processor::GainProcessor;
use duplex_audio::processor::Processor;
use duplex_audio::processor::ProcessorChain;
use duplex_audio::processor::SAMPLE_UNIT;
use duplex_audio::route::HandoffQueue;
use duplex_audio::route::capture_step;
use duplex_audio::route::negotiate_duplex;
use duplex_audio::route::queue_overrun_keeps_oldest;
use duplex_audio::route::render_step;

#[test]
fn full_queue_drops_newest_block() {
    // Capacity one, two blocks produced before any is consumed: the second
    // send fails, the first block is still the one retrieved.
    let mut queue = HandoffQueue::new(1);
    assert!(queue.try_send(vec![1, 2, 3]));
    assert!(!queue.try_send(vec![4, 5, 6]));
    assert_eq!(queue.try_recv(), Some(vec![1, 2, 3]));
    assert_eq!(queue.try_recv(), None);
}

#[test]
fn overrun_round_trip_keeps_oldest_block() {
    let (oldest, rest) = queue_overrun_keeps_oldest(vec![11, 22], vec![33, 44]);
    assert_eq!(oldest, Some(vec![11, 22]));
    assert_eq!(rest, None);
}

#[test]
fn queue_is_first_in_first_out() {
    let mut queue = HandoffQueue::new(4);
    assert!(queue.try_send(vec![1]));
    assert!(queue.try_send(vec![2]));
    assert!(queue.try_send(vec![3]));
    assert_eq!(queue.try_recv(), Some(vec![1]));
    assert_eq!(queue.try_recv(), Some(vec![2]));
    assert!(queue.try_send(vec![4]));
    assert_eq!(queue.try_recv(), Some(vec![3]));
    assert_eq!(queue.try_recv(), Some(vec![4]));
    assert_eq!(queue.try_recv(), None);
}

#[test]
fn capture_step_processes_and_enqueues() {
    let mut chain = ProcessorChain::new();
    chain.add_processor(Processor::Gain(GainProcessor::new(2 * SAMPLE_UNIT)));
    let mut queue = HandoffQueue::new(2);
    let data: Vec<i64> = vec![40_000, 400_000];
    assert!(capture_step(&mut chain, &data, &mut queue));
    // The hardware-side buffer is untouched; the enqueued copy is processed.
    assert_eq!(data, vec![40_000, 400_000]);
    assert_eq!(queue.try_recv(), Some(vec![80_000, 800_000]));
}

#[test]
fn capture_step_drops_newest_when_queue_full() {
    let mut chain = ProcessorChain::new();
    let mut queue = HandoffQueue::new(1);
    assert!(capture_step(&mut chain, &vec![1], &mut queue));
    assert!(!capture_step(&mut chain, &vec![2], &mut queue));
    assert_eq!(queue.try_recv(), Some(vec![1]));
    assert_eq!(queue.try_recv(), None);
}

#[test]
fn render_step_copies_prefix_and_keeps_tail() {
    let mut queue = HandoffQueue::new(2);
    assert!(queue.try_send(vec![10, 20]));
    // Hardware buffer longer than the block: the tail keeps its prior value.
    let mut output: Vec<i64> = vec![7, 7, 7, 7];
    render_step(&mut queue, &mut output);
    assert_eq!(output, vec![10, 20, 7, 7]);
}

#[test]
fn render_step_truncates_long_block() {
    let mut queue = HandoffQueue::new(2);
    assert!(queue.try_send(vec![1, 2, 3, 4, 5]));
    let mut output: Vec<i64> = vec![0, 0];
    render_step(&mut queue, &mut output);
    assert_eq!(output, vec![1, 2]);
}

#[test]
fn render_step_underrun_leaves_buffer_untouched() {
    let mut queue = HandoffQueue::new(2);
    let mut output: Vec<i64> = vec![9, 8, 7];
    render_step(&mut queue, &mut output);
    assert_eq!(output, vec![9, 8, 7]);
}

#[test]
fn duplex_negotiation_flags_rate_mismatch() {
    let capture = vec![SupportedConfigRange { min_rate: 44100, max_rate: 48000 }];
    let render = vec![SupportedConfigRange { min_rate: 96000, max_rate: 96000 }];
    let plan = negotiate_duplex(&capture, &render, 96000, 512).unwrap();
    assert_eq!(plan.capture_config.sample_rate, 48000);
    assert_eq!(plan.render_config.sample_rate, 96000);
    assert!(plan.rate_mismatch);

    let plan2 = negotiate_duplex(&capture, &capture, 48000, 512).unwrap();
    assert_eq!(plan2.capture_config.sample_rate, 48000);
    assert_eq!(plan2.render_config.sample_rate, 48000);
    assert!(!plan2.rate_mismatch);
}

#[test]
fn duplex_negotiation_fails_when_either_side_has_no_range() {
    let some = vec![SupportedConfigRange { min_rate: 44100, max_rate: 48000 }];
    let none: Vec<SupportedConfigRange> = Vec::new();
    assert_eq!(
        negotiate_duplex(&none, &some, 48000, 512),
        Err(AudioError::NoSupportedConfig)
    );
    assert_eq!(
        negotiate_duplex(&some, &none, 48000, 512),
        Err(AudioError::NoSupportedConfig)
    );
}

#[test]
fn default_config_values() {
    let c = AudioConfig::default();
    assert_eq!(c.input_device_name, "麦克风");
    assert_eq!(c.vbcable_input_name, "CABLE-A Input");
    assert_eq!(c.vbcable_output_name, "CABLE Output");
    assert_eq!(c.output_device_name, "扬声器");
    assert_eq!(c.sample_rate, 48000);
    assert_eq!(c.buffer_size, 512);
}
