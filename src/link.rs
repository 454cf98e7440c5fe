//! The all-or-nothing protocol that opens an audio link: a capture stream and a
//! playback stream joined by a sample queue.
//!
//! Opening is a fixed sequence of steps carried out by the caller; each step can
//! fail. Both streams are built before either is started, and a failure names
//! exactly the streams that were built so far, which the caller tears down.
use vstd::prelude::*;

verus! {

/// Why a link could not be opened.
#[derive(PartialEq, Eq, Structural, Clone, Copy, Debug)]
pub enum LinkError {
    /// The device has no usable default stream configuration.
    StreamConfigError,
    /// The audio subsystem refused to create the stream (device busy,
    /// permission denied, invalid or disconnected).
    StreamOpenError,
    /// The stream was created but failed to begin running.
    StreamStartError,
}

/// One step of opening a link, in the order they are carried out.
#[derive(PartialEq, Eq, Structural, Clone, Copy, Debug)]
pub enum LinkStep {
    /// Resolve the selected input device.
    FindInput,
    /// Obtain the input device's native stream configuration.
    ConfigureInput,
    /// Create the input stream, whose callback fills the queue.
    BuildInput,
    /// Resolve the output device.
    FindOutput,
    /// Obtain the output device's native stream configuration.
    ConfigureOutput,
    /// Create the output stream, whose callback drains the queue.
    BuildOutput,
    /// Start the input stream.
    StartInput,
    /// Start the output stream.
    StartOutput,
}

/// The position of a step in the sequence.
pub open spec fn step_index(s: LinkStep) -> nat {
    match s {
        LinkStep::FindInput => 0,
        LinkStep::ConfigureInput => 1,
        LinkStep::BuildInput => 2,
        LinkStep::FindOutput => 3,
        LinkStep::ConfigureOutput => 4,
        LinkStep::BuildOutput => 5,
        LinkStep::StartInput => 6,
        LinkStep::StartOutput => 7,
    }
}

/// The number of steps in opening a link.
pub const LINK_STEPS: usize = 8;

/// The error that a failure of step `s` produces.
pub open spec fn failure_of(s: LinkStep) -> LinkError {
    match s {
        LinkStep::ConfigureInput | LinkStep::ConfigureOutput => LinkError::StreamConfigError,
        LinkStep::StartInput | LinkStep::StartOutput => LinkError::StreamStartError,
        _ => LinkError::StreamOpenError,
    }
}

/// Whether the input stream exists when step `s` is about to be carried out.
pub open spec fn input_built_before(s: LinkStep) -> bool {
    step_index(s) > step_index(LinkStep::BuildInput)
}

/// Whether the output stream exists when step `s` is about to be carried out.
pub open spec fn output_built_before(s: LinkStep) -> bool {
    step_index(s) > step_index(LinkStep::BuildOutput)
}

/// The step that follows `s`, or `None` after the last one.
pub fn next_step(s: LinkStep) -> (r: Option<LinkStep>)
    ensures
        step_index(s) + 1 < LINK_STEPS ==> r is Some && step_index(r->0) == step_index(s) + 1,
        step_index(s) + 1 == LINK_STEPS ==> r is None,
{
    match s {
        LinkStep::FindInput => Some(LinkStep::ConfigureInput),
        LinkStep::ConfigureInput => Some(LinkStep::BuildInput),
        LinkStep::BuildInput => Some(LinkStep::FindOutput),
        LinkStep::FindOutput => Some(LinkStep::ConfigureOutput),
        LinkStep::ConfigureOutput => Some(LinkStep::BuildOutput),
        LinkStep::BuildOutput => Some(LinkStep::StartInput),
        LinkStep::StartInput => Some(LinkStep::StartOutput),
        LinkStep::StartOutput => None,
    }
}

/// The error that a failure of step `s` produces.
pub fn step_failure(s: LinkStep) -> (e: LinkError)
    ensures
        e == failure_of(s),
{
    match s {
        LinkStep::ConfigureInput | LinkStep::ConfigureOutput => LinkError::StreamConfigError,
        LinkStep::StartInput | LinkStep::StartOutput => LinkError::StreamStartError,
        _ => LinkError::StreamOpenError,
    }
}

/// Which streams must be torn down when step `s` fails: `(input, output)`.
pub fn built_before(s: LinkStep) -> (r: (bool, bool))
    ensures
        r == (input_built_before(s), output_built_before(s)),
{
    match s {
        LinkStep::FindInput | LinkStep::ConfigureInput | LinkStep::BuildInput => (false, false),
        LinkStep::FindOutput | LinkStep::ConfigureOutput | LinkStep::BuildOutput => (true, false),
        _ => (true, true),
    }
}

} // verus!
