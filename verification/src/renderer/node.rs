//! The process backend: renders by spawning the system's NodeJs interpreter
//! once per call, with the typesetting library unpacked to a private
//! temporary directory.
//!
//! The spawning itself is I/O and happens outside this library; what stands
//! here is everything decided about it: whether the probed interpreter
//! version suffices, the unpacking of the library archive, and the rule that
//! turns the captured process streams into a render or an error.

use vstd::prelude::*;

use crate::error::{InitError, RenderError};
use crate::renderer::Render;
use crate::text::trimmed_end;

verus! {

/// The process backend's state: the directory holding the unpacked
/// typesetting library, private to this handle and removed when the handle
/// is dropped.
pub struct Node {
    mathjax_lib: tempfile::TempDir,
}

/// What running the interpreter once produced.
pub enum InterpreterOutcome {
    /// The process ran to completion; both streams were captured whole.
    Completed { stdout: Vec<u8>, stderr: Vec<u8> },
    /// The process could not be spawned or waited for.
    SpawnFailed { message: String },
}

/// The decoding `String::from_utf8_lossy` performs: invalid sequences become
/// replacement characters.
pub uninterp spec fn utf8_lossy(bytes: Seq<u8>) -> Seq<char>;

/// The major version node-semver reads out of a version string, where the
/// string parses as a version at all.
pub uninterp spec fn semver_major(text: Seq<char>) -> Option<u64>;

/// Whether the probed interpreter's reported version is accepted: its
/// trailing line ending stripped, it must parse as a version with major
/// part at least 6.
pub open spec fn probe_version_accepted(probe_stdout: Seq<u8>) -> bool {
    let cleaned = trimmed_end(trimmed_end(utf8_lossy(probe_stdout), '\n'), '\r');
    match semver_major(cleaned) {
        Some(major) => major >= 6,
        None => false,
    }
}

/// Decides from the probe's captured output whether the interpreter runtime
/// can be used as a renderer: the typesetting library needs major version 6
/// or later.
pub fn version_sufficient(probe_stdout: &Vec<u8>) -> (r: bool)
    ensures
        r == probe_version_accepted(probe_stdout@),
{
    let text = decode_lossy(probe_stdout);
    let no_newline = crate::text::trim_end_matching(text.as_str(), '\n');
    let cleaned = crate::text::trim_end_matching(no_newline, '\r');
    match parse_version_major(cleaned) {
        Some(major) => major >= 6,
        None => false,
    }
}

/// What the classification of one interpreter run promises: empty error
/// stream means success carrying the decoded output stream; any bytes on the
/// error stream mean failure carrying exactly their decoded text, whatever
/// the exit code was; a spawn failure is an I/O error with its message.
pub open spec fn interpreter_render_post(
    outcome: InterpreterOutcome,
    r: Result<Render, RenderError>,
) -> bool {
    match outcome {
        InterpreterOutcome::Completed { stdout, stderr } => {
            if stderr@.len() == 0 {
                r matches Ok(render) && render.markup() == utf8_lossy(stdout@)
                    && !render.color_applied()
            } else {
                r matches Err(RenderError::MathJaxError(message)) && message@ == utf8_lossy(
                    stderr@,
                )
            }
        },
        InterpreterOutcome::SpawnFailed { message } => {
            r matches Err(RenderError::IoError(text)) && text@ == message@
        },
    }
}

impl Node {
    /// Unpacks the bundled typesetting-library archive into a fresh private
    /// temporary directory and hands back the backend owning it. Fails with
    /// `IoError` when no directory could be made, and with `ZipError` when
    /// the archive could not be unpacked there.
    pub fn create(archive: &[u8]) -> (r: Result<Node, InitError>)
        ensures
            r matches Err(e) ==> e is IoError || e is ZipError,
    {
        let dir = match create_temp_dir() {
            Ok(dir) => dir,
            Err(message) => {
                return Err(InitError::IoError(message));
            },
        };
        match extract_archive(archive, &dir) {
            Ok(()) => Ok(Node { mathjax_lib: dir }),
            Err(message) => Err(InitError::ZipError(message)),
        }
    }

    /// Where the unpacked library lives: the working directory for
    /// interpreter invocations made on this backend's behalf.
    pub fn lib_path(&self) -> String {
        temp_dir_path(&self.mathjax_lib)
    }

    /// Classifies what one interpreter run produced. The error stream is the
    /// failure channel agreed with the driver script: any bytes on it mean
    /// the render failed, and the exit code is not consulted at all.
    pub fn render(&self, outcome: InterpreterOutcome) -> (r: Result<Render, RenderError>)
        ensures
            interpreter_render_post(outcome, r),
    {
        match outcome {
            InterpreterOutcome::Completed { stdout, stderr } => {
                if stderr.len() == 0 {
                    Ok(Render::new(decode_lossy(&stdout)))
                } else {
                    Err(RenderError::MathJaxError(decode_lossy(&stderr)))
                }
            },
            InterpreterOutcome::SpawnFailed { message } => Err(RenderError::IoError(message)),
        }
    }
}

#[verifier::external_type_specification]
#[verifier::external_body]
pub struct ExTempDir(tempfile::TempDir);

/// Relies on `String::from_utf8_lossy`: the decoding is a function of the
/// bytes alone, and it yields an empty string exactly for empty input.
#[verifier::external_body]
fn decode_lossy(bytes: &Vec<u8>) -> (r: String)
    ensures
        r@ == utf8_lossy(bytes@),
        r@.len() == 0 <==> bytes@.len() == 0,
{
    String::from_utf8_lossy(bytes).to_string()
}

/// Relies on node-semver's parser: the result is a function of the text
/// alone; `None` where the text is no version.
#[verifier::external_body]
fn parse_version_major(text: &str) -> (r: Option<u64>)
    ensures
        r == semver_major(text@),
{
    match text.parse::<node_semver::Version>() {
        Ok(version) => Some(version.major),
        Err(_) => None,
    }
}

/// Relies on `tempfile::tempdir`: a fresh private temporary directory,
/// removed when the handle is dropped. Where it is and whether it could be
/// made depend on the machine, so only the error text is passed on.
#[verifier::external_body]
fn create_temp_dir() -> (r: Result<tempfile::TempDir, String>) {
    tempfile::tempdir().map_err(|e| e.to_string())
}

/// Relies on `zip_extract::extract`: unpacks the archive into the directory,
/// stripping the archive's single top-level directory. Only the outcome is
/// consumed; on failure its error text is passed on.
#[verifier::external_body]
fn extract_archive(archive: &[u8], dir: &tempfile::TempDir) -> (r: Result<(), String>) {
    zip_extract::extract(std::io::Cursor::new(archive), dir.path(), true).map_err(
        |e| e.to_string(),
    )
}

/// Relies on `TempDir::path`: where the directory lies, as text. The path is
/// chosen by the machine, so nothing is stated of it.
#[verifier::external_body]
fn temp_dir_path(dir: &tempfile::TempDir) -> (r: String) {
    dir.path().to_string_lossy().into_owned()
}

} // verus!
