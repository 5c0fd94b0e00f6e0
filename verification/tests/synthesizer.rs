use tone_pipeline::generator::{
    apply_control, backpressure_request, frequency_report, AudioGeneratorEvent,
    AudioGeneratorInput, GeneratorDirective, MIN_SYNTHESIS_BATCH,
};
use tone_pipeline::stream::{SampleQueue, StereoSample};
use tone_pipeline::synthesizer::{Frequency, Synthesizer, BASE_FREQUENCY_HZ};

fn amplitudes(count: usize) -> Vec<u32> {
    (0..count).map(|i| i as u32).collect()
}

#[test]
fn clock_advances_by_batch_size_while_playing() {
    let mut q = SampleQueue::new(64);
    let mut s = Synthesizer::new_with(44100);
    assert_eq!(s.sample_clock, 0);
    s.generate_audio(&amplitudes(5), &mut q);
    assert_eq!(s.sample_clock, 5);
}

#[test]
fn clock_advances_by_batch_size_while_paused() {
    // Pausing suppresses frame emission, not the passage of synthesis time.
    let mut q = SampleQueue::new(64);
    let mut s = Synthesizer::new_with(44100);
    s.pause();
    s.generate_audio(&amplitudes(5), &mut q);
    assert_eq!(s.sample_clock, 5);
    s.play();
    s.generate_audio(&amplitudes(3), &mut q);
    assert_eq!(s.sample_clock, 8);
}

#[test]
fn paused_generation_leaves_queue_untouched() {
    let mut q = SampleQueue::new(64);
    let mut s = Synthesizer::new_with(48000);
    s.generate_audio(&amplitudes(10), &mut q);
    assert_eq!(q.len(), 10);
    s.pause();
    s.generate_audio(&amplitudes(7), &mut q);
    assert_eq!(q.len(), 10);
    assert_eq!(s.sample_clock, 17);
}

#[test]
fn generated_frames_duplicate_amplitude_to_both_channels() {
    let mut q = SampleQueue::new(8);
    let mut s = Synthesizer::new_with(44100);
    s.generate_audio(&vec![123, 456], &mut q);
    assert_eq!(q.pop(), StereoSample { left: 123, right: 123 });
    assert_eq!(q.pop(), StereoSample { left: 456, right: 456 });
}

#[test]
fn one_frequency_change_multiplies_by_one_point_oh_one() {
    // 440.0 Hz × 1.01 is exactly 444.4 Hz: as a ratio, 44440 / 100.
    let mut s = Synthesizer::new_with(44100);
    assert_eq!(s.frequency().parts(), Some((440, 1)));
    s.change_frequency();
    let (num, den) = s.frequency().parts().unwrap();
    assert_eq!((num, den), (44440, 100));
    assert_eq!(num as f64 / den as f64, 444.4);
}

#[test]
fn repeated_frequency_changes_compound_exactly() {
    // After k changes the frequency is exactly 440 · 101^k / 100^k Hz.
    let mut s = Synthesizer::new_with(44100);
    for _ in 0..3 {
        s.change_frequency();
    }
    assert_eq!(s.frequency().steps, 3);
    // 101^3 = 1_030_301, so the ratio is 440 · 1_030_301 / 100^3.
    assert_eq!(s.frequency().parts(), Some((453_332_440, 1_000_000)));
    assert_eq!(BASE_FREQUENCY_HZ * 1_030_301, 453_332_440);
}

#[test]
fn frequency_parts_report_overflow_as_none() {
    let far_along = Frequency { steps: 200 };
    assert_eq!(far_along.parts(), None);
}

#[test]
fn play_and_pause_do_not_touch_clock_or_frequency() {
    let mut q = SampleQueue::new(16);
    let mut s = Synthesizer::new_with(44100);
    s.generate_audio(&amplitudes(4), &mut q);
    s.change_frequency();
    s.pause();
    assert_eq!(s.sample_clock, 4);
    assert_eq!(s.frequency.steps, 1);
    s.play();
    assert_eq!(s.sample_clock, 4);
    assert_eq!(s.frequency.steps, 1);
}

#[test]
fn control_messages_map_to_directives() {
    let mut s = Synthesizer::new_with(44100);
    assert_eq!(
        apply_control(&mut s, AudioGeneratorInput::Pause),
        GeneratorDirective::KeepWaiting
    );
    assert!(!s.is_playing);
    assert_eq!(
        apply_control(&mut s, AudioGeneratorInput::Play),
        GeneratorDirective::KeepWaiting
    );
    assert!(s.is_playing);
    assert_eq!(
        apply_control(&mut s, AudioGeneratorInput::GenerateAudio(512)),
        GeneratorDirective::Synthesize(512)
    );
    assert_eq!(s.sample_clock, 0);
    assert_eq!(
        apply_control(&mut s, AudioGeneratorInput::ChangeFrequency),
        GeneratorDirective::ReportFrequency
    );
    assert_eq!(
        frequency_report(&s),
        AudioGeneratorEvent::Frequency(Frequency { steps: 1 })
    );
    assert_eq!(
        apply_control(&mut s, AudioGeneratorInput::Quit),
        GeneratorDirective::Quit
    );
}

#[test]
fn small_shortfall_triggers_no_synthesis() {
    // Shortfall 40 is below the batch threshold of 64: no request.
    let mut q = SampleQueue::new(128);
    let mut s = Synthesizer::new_with(44100);
    s.generate_audio(&amplitudes(88), &mut q);
    assert_eq!(q.len(), 88);
    assert_eq!(backpressure_request(&q), None);
}

#[test]
fn large_shortfall_requests_exactly_the_shortfall() {
    // Shortfall 100 crosses the threshold: exactly 100 frames are requested
    // and synthesized, filling the queue.
    assert_eq!(MIN_SYNTHESIS_BATCH, 64);
    let mut q = SampleQueue::new(128);
    let mut s = Synthesizer::new_with(44100);
    s.generate_audio(&amplitudes(28), &mut q);
    let request = backpressure_request(&q);
    assert_eq!(request, Some(100));
    s.generate_audio(&amplitudes(request.unwrap()), &mut q);
    assert_eq!(q.len(), 128);
    assert_eq!(backpressure_request(&q), None);
}

#[test]
fn delay_doubles_upward_from_zero_floor() {
    let mut s = Synthesizer::new_with(44100);
    assert_eq!(s.fake_delay(), 1);
    s.increase_fake_delay();
    assert_eq!(s.fake_delay(), 2);
    s.increase_fake_delay();
    assert_eq!(s.fake_delay(), 4);
    s.decrease_fake_delay();
    assert_eq!(s.fake_delay(), 2);
    s.decrease_fake_delay();
    s.decrease_fake_delay();
    assert_eq!(s.fake_delay(), 0);
    s.decrease_fake_delay();
    assert_eq!(s.fake_delay(), 0);
    s.increase_fake_delay();
    assert_eq!(s.fake_delay(), 1);
    s.set_fake_delay(500);
    assert_eq!(s.fake_delay(), 500);
}
