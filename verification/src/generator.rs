//! The control surface of the generator worker: the messages a controller
//! sends it, the status it reports back, and the two decisions its event loop
//! makes — how to act on a control message, and whether a backpressure pulse
//! warrants synthesizing a batch.
//!
//! The worker's event loop itself blocks on channels and sleeps, so it lives
//! with the rest of the thread plumbing outside this crate's verified core;
//! every decision it takes is a call into this module.

use vstd::prelude::*;

use crate::stream::SampleQueue;
use crate::synthesizer::{Frequency, Synthesizer};

verus! {

/// A control message for the tone generator.
#[derive(Clone, Copy, Debug, PartialEq, Eq, Structural)]
pub enum AudioGeneratorInput {
    /// Start making sound.
    Play,
    /// Stop making sounds.
    Pause,
    /// Change the character of the sound.
    ChangeFrequency,
    /// Generate the given number of audio frames and queue them.
    GenerateAudio(usize),
    /// End the worker.
    Quit,
}

/// A status report from the tone generator to its controller.
#[derive(Clone, Copy, Debug, PartialEq, Eq, Structural)]
pub enum AudioGeneratorEvent {
    /// The tone's current frequency.
    Frequency(Frequency),
}

/// What the generator's event loop must do after one control message has
/// been applied to the synthesizer.
#[derive(Clone, Copy, Debug, PartialEq, Eq, Structural)]
pub enum GeneratorDirective {
    /// Nothing beyond the state change; wait for the next message.
    KeepWaiting,
    /// Report the (changed) frequency to the controller.
    ReportFrequency,
    /// Synthesize this many frames and feed them to the queue.
    Synthesize(usize),
    /// Leave the event loop; no message after this one is processed.
    Quit,
}

/// Shortfalls below this many frames are ignored, so the generator is not
/// fired up for tiny batches when the stream asks for very small buffers.
pub const MIN_SYNTHESIS_BATCH: usize = 64;

/// What one control message does to the synthesizer, and what the event loop
/// owes afterwards.
pub open spec fn spec_apply_control(s: Synthesizer, input: AudioGeneratorInput) -> (
    Synthesizer,
    GeneratorDirective,
) {
    match input {
        AudioGeneratorInput::Play => (
            (Synthesizer { is_playing: true, ..s }),
            GeneratorDirective::KeepWaiting,
        ),
        AudioGeneratorInput::Pause => (
            (Synthesizer { is_playing: false, ..s }),
            GeneratorDirective::KeepWaiting,
        ),
        AudioGeneratorInput::ChangeFrequency => (
            (Synthesizer { frequency: s.frequency.stepped(), ..s }),
            GeneratorDirective::ReportFrequency,
        ),
        AudioGeneratorInput::GenerateAudio(count) => (s, GeneratorDirective::Synthesize(count)),
        AudioGeneratorInput::Quit => (s, GeneratorDirective::Quit),
    }
}

/// Applies one control message to the synthesizer: play and pause toggle
/// emission, a frequency change raises the frequency one step and asks the
/// loop to report it, a generation request and a quit change nothing here and
/// only direct the loop. The sample clock and sample rate are never touched.
pub fn apply_control(s: &mut Synthesizer, input: AudioGeneratorInput) -> (directive:
    GeneratorDirective)
    ensures
        (*final(s), directive) == spec_apply_control(*old(s), input),
{
    match input {
        AudioGeneratorInput::Play => {
            s.play();
            GeneratorDirective::KeepWaiting
        },
        AudioGeneratorInput::Pause => {
            s.pause();
            GeneratorDirective::KeepWaiting
        },
        AudioGeneratorInput::ChangeFrequency => {
            s.change_frequency();
            GeneratorDirective::ReportFrequency
        },
        AudioGeneratorInput::GenerateAudio(count) => GeneratorDirective::Synthesize(count),
        AudioGeneratorInput::Quit => GeneratorDirective::Quit,
    }
}

/// The status report the loop sends after a frequency change: the current
/// frequency, exactly as the synthesizer holds it.
pub fn frequency_report(s: &Synthesizer) -> (e: AudioGeneratorEvent)
    ensures
        e == AudioGeneratorEvent::Frequency(s.frequency),
{
    AudioGeneratorEvent::Frequency(s.frequency())
}

/// How many frames a backpressure pulse asks for: the queue's shortfall,
/// capacity minus current length — but only once the shortfall has reached
/// the minimum batch size; smaller shortfalls are ignored until accumulated
/// demand crosses the threshold.
pub fn backpressure_request(queue: &SampleQueue) -> (request: Option<usize>)
    requires
        queue.wf(),
    ensures
        request == (if queue.cap() - queue.contents().len() >= MIN_SYNTHESIS_BATCH {
            Some((queue.cap() - queue.contents().len()) as usize)
        } else {
            None::<usize>
        }),
        request matches Some(count) ==> MIN_SYNTHESIS_BATCH <= count <= queue.cap(),
    {
    let capacity = queue.capacity();
    let length = queue.len();
    let shortfall = capacity - length;
    if shortfall >= MIN_SYNTHESIS_BATCH {
        Some(shortfall)
    } else {
        None
    }
}

} // verus!
