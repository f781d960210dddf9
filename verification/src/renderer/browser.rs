//! The interactive backend: a long-lived headless browser instance, reused
//! across render calls. Launching the instance and driving a page — opening
//! it, injecting the typesetting script, waiting for the in-page call to
//! resolve — is I/O and happens outside this library; what stands here is
//! the decision on each reported outcome.

use vstd::prelude::*;

use crate::error::{InitError, RenderError};
use crate::renderer::Render;

verus! {

/// The interactive backend's state. The browser connection itself lives with
/// the I/O layer that launched it; this handle records that an instance was
/// attached and classifies what each page conversation returned.
pub struct Browser {
    attached: bool,
}

/// What the classification of one page conversation promises: markup
/// resolves to a fresh render; a resolution without text yields a render of
/// empty markup; a reported failure carries exactly its text.
pub open spec fn interactive_render_post(
    outcome: Result<Option<String>, String>,
    r: Result<Render, RenderError>,
) -> bool {
    match outcome {
        Ok(Some(markup)) => {
            r matches Ok(render) && render.markup() == markup@ && !render.color_applied()
        },
        Ok(None) => {
            r matches Ok(render) && render.markup() == Seq::<char>::empty()
                && !render.color_applied()
        },
        Err(message) => {
            r matches Err(RenderError::Browser(text)) && text@ == message@
        },
    }
}

impl Browser {
    /// Takes the outcome of launching the browser instance: a launched
    /// instance yields the backend handle, a launch failure is passed on as
    /// an initialization error with exactly its text.
    pub fn create(launch: Result<(), String>) -> (r: Result<Browser, InitError>)
        ensures
            launch is Ok ==> r is Ok,
            (launch matches Err(message) ==> r matches Err(InitError::Browser(text)) && text@
                == message@),
    {
        match launch {
            Ok(()) => Ok(Browser { attached: true }),
            Err(message) => Err(InitError::Browser(message)),
        }
    }

    /// Classifies what one page conversation produced: the markup the page
    /// resolved with (`None` when it resolved without text), or the failure
    /// reported by the scripting layer.
    pub fn render(&self, outcome: Result<Option<String>, String>) -> (r: Result<
        Render,
        RenderError,
    >)
        ensures
            interactive_render_post(outcome, r),
    {
        match outcome {
            Ok(Some(markup)) => Ok(Render::new(markup)),
            Ok(None) => Ok(Render::new(String::new())),
            Err(message) => Err(RenderError::Browser(message)),
        }
    }
}

} // verus!
