//! Errors of the two phases: constructing the renderer facade, and a single
//! render call. Construction errors are terminal (no facade is produced);
//! render errors are local to one call and leave the facade usable.

use vstd::prelude::*;

verus! {

/// An error during the initialization of the renderer backend.
#[derive(Debug)]
pub enum InitError {
    /// No interpreter runtime of a sufficient version was found, and the
    /// interactive backend is not compiled in.
    NodeJsUnavailable,
    /// The bundled typesetting-library archive could not be unpacked.
    ZipError(String),
    /// The temporary directory for the unpacked library could not be made.
    IoError(String),
    /// The interactive browser instance could not be launched.
    Browser(String),
}

/// An error during a single render call.
#[derive(Debug)]
pub enum RenderError {
    /// The interpreter process could not be spawned or waited for.
    IoError(String),
    /// The interpreter wrote to its error stream; the payload is that text,
    /// decoded. Any output on the error stream counts as failure, whatever
    /// the exit code was.
    MathJaxError(String),
    /// The conversation with the browser instance failed.
    Browser(String),
}

} // verus!
