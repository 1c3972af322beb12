use vstd::prelude::*;

verus! {

/// `rhai::EvalAltResult`: the evaluator's account of why a run ended, of
/// which the verifier sees nothing.
#[verifier::external_type_specification]
#[verifier::external_body]
pub struct ExEvalAltResult(rhai::EvalAltResult);

/// `std::io::Error`, of which the verifier sees nothing.
#[verifier::external_type_specification]
#[verifier::external_body]
pub struct ExIoError(std::io::Error);

/// Why the hook that captures and swallows input could not be installed,
/// or why it ended.
#[derive(Debug)]
pub enum GrabError {
    /// MacOS
    EventTapError,
    /// MacOS
    LoopSourceError,
    /// Linux
    MissingDisplayError,
    /// Linux
    KeyboardError,
    /// Windows
    KeyHookError(u32),
    /// Windows
    MouseHookError(u32),
    /// All
    SimulateError,
    IoError(std::io::Error),
}

/// Why the hook that only listens to input could not be installed.
#[derive(Debug)]
pub enum ListenError {
    /// MacOS
    EventTapError,
    /// MacOS
    LoopSourceError,
    /// Linux
    MissingDisplayError,
    /// Linux
    KeyboardError,
    /// Linux
    RecordContextEnablingError,
    /// Linux
    RecordContextError,
    /// Linux
    XRecordExtensionError,
    /// Windows
    KeyHookError(u32),
    /// Windows
    MouseHookError(u32),
}

/// Why a playback ended before its script did.
#[derive(Debug)]
pub enum SimulateError {
    /// The platform did not take an injected event.
    Default,
    /// The evaluator gave the script up: it is malformed, one of its
    /// calls failed, or the run was asked to stop.
    Rhai(Box<rhai::EvalAltResult>),
}

} // verus!
