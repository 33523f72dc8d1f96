//! The error surface of the shell.
//!
//! Every externally-sourced failure (windowing subsystem, filesystem) is
//! translated into one of these variants; no foreign error type leaks out.

use vstd::prelude::*;

verus! {

/// All errors the shell can surface. Each variant carries the text of the
/// underlying failure; the variant itself identifies the stage that failed.
#[derive(Debug, Clone, PartialEq, Eq)]
pub enum NeutonError {
    /// The windowing/graphics subsystem could not be initialized or failed
    /// while polling events.
    Sdl2Error(String),
    /// Window creation failed.
    WindowError(String),
    /// Render-surface creation failed.
    CanvasError(String),
    /// The log sink could not be set up.
    LoggerError(String),
    /// Any other failure, such as a filesystem error while loading an asset.
    Other(String),
}

/// Convenient result type for the shell.
pub type NeutonResult<T> = Result<T, NeutonError>;

/// The text of an error: a fixed prefix naming the failed stage, followed by
/// the text of the underlying failure.
pub open spec fn spec_message(e: NeutonError) -> Seq<char> {
    match e {
        NeutonError::Sdl2Error(m) => "SDL2 error: "@ + m@,
        NeutonError::WindowError(m) => "Window creation failed: "@ + m@,
        NeutonError::CanvasError(m) => "Canvas creation failed: "@ + m@,
        NeutonError::LoggerError(m) => "Failed to initialize logger: "@ + m@,
        NeutonError::Other(m) => "Other error: "@ + m@,
    }
}

impl NeutonError {
    /// Render the error as text for display at the application boundary.
    pub fn message(&self) -> (r: String)
        ensures
            r@ == spec_message(*self),
    {
        match self {
            NeutonError::Sdl2Error(m) => "SDL2 error: ".to_owned().concat(m.as_str()),
            NeutonError::WindowError(m) => "Window creation failed: ".to_owned().concat(
                m.as_str(),
            ),
            NeutonError::CanvasError(m) => "Canvas creation failed: ".to_owned().concat(
                m.as_str(),
            ),
            NeutonError::LoggerError(m) => "Failed to initialize logger: ".to_owned().concat(
                m.as_str(),
            ),
            NeutonError::Other(m) => "Other error: ".to_owned().concat(m.as_str()),
        }
    }
}

#[verifier::external_type_specification]
#[verifier::external_body]
pub struct ExIoError(std::io::Error);

/// Relies on std's `io::Error` Display impl: renders the failure as text.
/// Nothing is claimed of the text; it may depend on the platform.
#[verifier::external_body]
fn io_error_text(err: &std::io::Error) -> String {
    format!("{}", err)
}

impl NeutonError {
    /// Translate a filesystem failure into the shell's error surface: it
    /// becomes the catch-all variant, carrying the failure's text (of which
    /// nothing is claimed; it may depend on the platform).
    pub fn from_io_error(err: std::io::Error) -> (r: Self)
        ensures
            r is Other,
    {
        NeutonError::Other(io_error_text(&err))
    }
}

impl From<std::io::Error> for NeutonError {
    /// A filesystem failure becomes the catch-all variant, carrying the
    /// failure's text.
    fn from(err: std::io::Error) -> (r: Self) {
        NeutonError::from_io_error(err)
    }
}

impl vstd::std_specs::convert::FromSpecImpl<std::io::Error> for NeutonError {
    open spec fn obeys_from_spec() -> bool {
        false
    }

    open spec fn from_spec(t: std::io::Error) -> Self {
        arbitrary()
    }
}

impl From<String> for NeutonError {
    /// A bare string becomes the catch-all variant.
    fn from(err: String) -> (r: Self) {
        NeutonError::Other(err)
    }
}

impl vstd::std_specs::convert::FromSpecImpl<String> for NeutonError {
    open spec fn obeys_from_spec() -> bool {
        true
    }

    open spec fn from_spec(t: String) -> Self {
        NeutonError::Other(t)
    }
}

} // verus!
