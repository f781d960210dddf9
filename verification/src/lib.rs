//! Renders mathematical markup into vector images by driving one of two
//! typesetting backends behind a single facade, then post-processing the
//! vector markup that comes back: one-shot recoloring, conversion into a
//! renderable vector tree, and sizing for rasterization.
//!
//! The facade picks its backend once, at construction, from the outcome of
//! probing for a local interpreter runtime: the process backend when the
//! runtime is present with a sufficient version, else the interactive
//! browser backend when compiled in, else construction fails. The probe, the
//! interpreter processes and the browser pages are I/O and are driven by the
//! caller; every decision about what they report is made and proved here.

use vstd::prelude::*;

pub mod error;
pub mod renderer;
pub mod text;

pub use error::{InitError, RenderError};
pub use renderer::Render;

use renderer::browser::{interactive_render_post, Browser};
use renderer::node::{interpreter_render_post, InterpreterOutcome, Node};
use renderer::Renderer;
use vstd::pervasive::unreached;

verus! {

/// Which backend the facade drives.
#[derive(Clone, Copy, Debug, PartialEq, Eq, Structural)]
pub enum BackendChoice {
    /// The process backend: one interpreter invocation per render.
    Interpreter,
    /// The interactive backend: pages of a long-lived browser instance.
    Interactive,
}

/// The backend the facade picks for a probe outcome: the process backend
/// when the interpreter runtime is available, else the interactive backend
/// when it is compiled in, else none.
pub open spec fn chosen_backend(node_available: bool, browser_supported: bool) -> Option<
    BackendChoice,
> {
    if node_available {
        Some(BackendChoice::Interpreter)
    } else if browser_supported {
        Some(BackendChoice::Interactive)
    } else {
        None
    }
}

/// What the caller must do to carry out one render call.
pub enum RenderRequest {
    /// Run the external interpreter with the fixed driver script and this
    /// expression as arguments, from this working directory, and capture
    /// both of its streams whole.
    Interpreter { working_dir: String, expression: String },
    /// Open a fresh page of the attached browser instance and evaluate the
    /// typesetting call for this expression there.
    Interactive { expression: String },
}

/// What carrying out a render request produced.
pub enum BackendOutcome {
    /// What running the interpreter produced.
    Interpreter(InterpreterOutcome),
    /// What the page conversation resolved with: markup (`None` when the
    /// page resolved without text), or the failure reported by the
    /// scripting layer.
    Interactive(Result<Option<String>, String>),
}

/// The renderer facade: a tagged choice of backend, fixed at construction
/// and kept for the facade's lifetime.
pub struct MathJax {
    renderer: Renderer,
}

impl MathJax {
    /// The backend this facade drives.
    pub closed spec fn backend_choice(&self) -> BackendChoice {
        match self.renderer {
            Renderer::Node(_) => BackendChoice::Interpreter,
            Renderer::Browser(_) => BackendChoice::Interactive,
        }
    }

    /// Creates a renderer facade from the probe's outcome, picking the
    /// backend once: the process backend when the interpreter runtime was
    /// detected (the bundled typesetting-library archive is unpacked to a
    /// private directory here), else the interactive backend when it is
    /// compiled in (the caller launches the instance and passes the
    /// outcome), else `NodeJsUnavailable`. The decision is final: no
    /// fallback happens later.
    pub fn new(
        node_available: bool,
        browser_supported: bool,
        mathjax_archive: &[u8],
        browser_launch: Option<Result<(), String>>,
    ) -> (r: Result<MathJax, InitError>)
        requires
            browser_launch is Some <==> chosen_backend(node_available, browser_supported)
                == Some(BackendChoice::Interactive),
        ensures
            (r matches Ok(facade) ==> chosen_backend(node_available, browser_supported) == Some(
                facade.backend_choice(),
            )),
            r is Err && !node_available && !browser_supported <==> (r matches Err(
                InitError::NodeJsUnavailable,
            )),
            node_available ==> (r matches Err(e) ==> e is IoError || e is ZipError),
            !node_available && browser_supported ==> match browser_launch {
                Some(Ok(())) => r is Ok,
                Some(Err(message)) => (r matches Err(InitError::Browser(text)) && text@
                    == message@),
                None => false,
            },
    {
        if node_available {
            match Node::create(mathjax_archive) {
                Ok(node) => Ok(MathJax { renderer: Renderer::Node(node) }),
                Err(e) => Err(e),
            }
        } else if browser_supported {
            match browser_launch {
                Some(launch) => match Browser::create(launch) {
                    Ok(browser) => Ok(MathJax { renderer: Renderer::Browser(browser) }),
                    Err(e) => Err(e),
                },
                None => unreached(),
            }
        } else {
            Err(InitError::NodeJsUnavailable)
        }
    }

    /// Which backend is active; fixed since construction.
    pub fn backend(&self) -> (r: BackendChoice)
        ensures
            r == self.backend_choice(),
    {
        match &self.renderer {
            Renderer::Node(_) => BackendChoice::Interpreter,
            Renderer::Browser(_) => BackendChoice::Interactive,
        }
    }

    /// Dispatches a render call: what the caller must do for this
    /// expression on the active backend. The expression is opaque payload
    /// and is carried to the backend verbatim.
    pub fn render_request(&self, expression: &str) -> (r: RenderRequest)
        ensures
            self.backend_choice() == BackendChoice::Interpreter ==> (r matches
                RenderRequest::Interpreter { expression: carried, .. } && carried@
                == expression@),
            self.backend_choice() == BackendChoice::Interactive ==> (r matches
                RenderRequest::Interactive { expression: carried } && carried@ == expression@),
    {
        let carried = expression.to_owned();
        match &self.renderer {
            Renderer::Node(node) => RenderRequest::Interpreter {
                working_dir: node.lib_path(),
                expression: carried,
            },
            Renderer::Browser(_) => RenderRequest::Interactive { expression: carried },
        }
    }

    /// Finishes a render call by classifying what the backend reported,
    /// with the active backend's rule; the result is passed on unchanged —
    /// no retry, no second backend.
    pub fn render(&self, outcome: BackendOutcome) -> (r: Result<Render, RenderError>)
        requires
            outcome is Interpreter <==> self.backend_choice() == BackendChoice::Interpreter,
        ensures
            (outcome matches BackendOutcome::Interpreter(reported) ==> interpreter_render_post(
                reported,
                r,
            )),
            (outcome matches BackendOutcome::Interactive(reported) ==> interactive_render_post(
                reported,
                r,
            )),
    {
        match (&self.renderer, outcome) {
            (Renderer::Node(node), BackendOutcome::Interpreter(reported)) => node.render(
                reported,
            ),
            (Renderer::Browser(browser), BackendOutcome::Interactive(reported)) => browser.render(
                reported,
            ),
            _ => unreached(),
        }
    }
}

/// Backend selection is deterministic per environment: two facades built
/// from the same probe outcome drive the same backend.
pub proof fn lemma_selection_deterministic(
    first: MathJax,
    second: MathJax,
    node_available: bool,
    browser_supported: bool,
)
    requires
        chosen_backend(node_available, browser_supported) == Some(first.backend_choice()),
        chosen_backend(node_available, browser_supported) == Some(second.backend_choice()),
    ensures
        first.backend_choice() == second.backend_choice(),
{
}

} // verus!
