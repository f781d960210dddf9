//! The render value and the backend choice.
//!
//! A `Render` wraps the raw vector markup a backend produced. It supports a
//! one-shot color substitution, a borrowing peek, a consuming conversion to
//! the raw markup, and a consuming conversion into a renderable vector tree.

use vstd::prelude::*;

use crate::text::replaced;
use resvg::usvg::TreeParsing;
use resvg::usvg::TreeTextToPath;

pub mod browser;
pub mod node;

verus! {

/// The backend a facade drives: exactly one of the two is alive per facade.
pub enum Renderer {
    /// The process backend: one interpreter invocation per render call.
    Node(node::Node),
    /// The interactive backend: a long-lived browser instance, reused.
    Browser(browser::Browser),
}

/// The output of a renderer: the final typeset image, as vector markup.
pub struct Render {
    /// The vector markup the backend produced.
    source: String,
    /// Whether the text/line color has been substituted in.
    color_set: bool,
}

/// The reserved token in generated markup that stands for the color the
/// caller may substitute in later.
pub open spec fn color_placeholder() -> Seq<char> {
    "currentColor"@
}

fn color_placeholder_text() -> (r: &'static str)
    ensures
        r@ == color_placeholder(),
        r@.len() > 0,
{
    proof {
        reveal_strlit("currentColor");
    }
    "currentColor"
}

impl Render {
    /// The markup this value holds.
    pub closed spec fn markup(&self) -> Seq<char> {
        self.source@
    }

    /// Whether the one-shot color substitution has been performed.
    pub closed spec fn color_applied(&self) -> bool {
        self.color_set
    }

    /// Wraps freshly produced markup; no color has been substituted yet.
    pub fn new(source: String) -> (r: Render)
        ensures
            r.markup() == source@,
            !r.color_applied(),
    {
        Render { source, color_set: false }
    }

    /// Sets the text/line color of the rendered image by substituting the
    /// caller's value for every occurrence of the placeholder token.
    ///
    /// Only the first call substitutes and returns `true`; every later call
    /// leaves the markup as it is and returns `false`. The color value is
    /// taken verbatim: no syntax of it is checked here.
    pub fn set_color(&mut self, color: &str) -> (r: bool)
        ensures
            r == !old(self).color_applied(),
            !old(self).color_applied() ==> final(self).markup() == replaced(
                old(self).markup(),
                color_placeholder(),
                color@,
            ),
            old(self).color_applied() ==> final(self).markup() == old(self).markup(),
            final(self).color_applied(),
    {
        if !self.color_set {
            let recolored = crate::text::replace_all(
                self.source.as_str(),
                color_placeholder_text(),
                color,
            );
            self.source = recolored;
            self.color_set = true;
            true
        } else {
            false
        }
    }

    /// The underlying markup, borrowed: an `<svg>...</svg>` element.
    pub fn as_raw(&self) -> (r: &str)
        ensures
            r@ == self.markup(),
    {
        self.source.as_str()
    }

    /// The underlying markup, consuming the value: an `<svg>...</svg>`
    /// element, recolored if `set_color` was called.
    pub fn into_raw(self) -> (r: String)
        ensures
            r@ == self.markup(),
    {
        self.source
    }

    /// Parses the markup into a renderable vector tree, with text nodes
    /// converted to path geometry from the system's fonts. Consumes the
    /// value: postprocessing is a one-way pipeline. Fails exactly when the
    /// markup does not parse, with the parser's error text.
    pub fn into_svg(self) -> (r: Result<resvg::Tree, String>)
        ensures
            r is Ok <==> svg_parses(self.markup()),
    {
        let mut tree = match parse_markup(self.source.as_str()) {
            Ok(tree) => tree,
            Err(message) => {
                return Err(message);
            },
        };
        let database = system_font_database();
        convert_text_to_paths(&mut tree, &database);
        Ok(build_render_tree(&tree))
    }
}

/// Whether usvg accepts this markup as an SVG document.
pub uninterp spec fn svg_parses(markup: Seq<char>) -> bool;

#[verifier::external_type_specification]
#[verifier::external_body]
pub struct ExUsvgTree(resvg::usvg::Tree);

#[verifier::external_type_specification]
#[verifier::external_body]
pub struct ExFontDatabase(resvg::usvg::fontdb::Database);

#[verifier::external_type_specification]
#[verifier::external_body]
pub struct ExRenderTree(resvg::Tree);

/// Relies on usvg's parser, `usvg::Tree::from_data` with default options:
/// whether markup parses is a function of the text alone. On failure the
/// parser's error text is handed back.
#[verifier::external_body]
fn parse_markup(markup: &str) -> (r: Result<resvg::usvg::Tree, String>)
    ensures
        r is Ok <==> svg_parses(markup@),
{
    let options = resvg::usvg::Options::default();
    resvg::usvg::Tree::from_data(markup.as_bytes(), &options).map_err(|e| e.to_string())
}

/// Relies on fontdb, `Database::load_system_fonts`: a font database filled
/// from the machine's fonts. What it holds depends on the machine, so
/// nothing is stated of it.
#[verifier::external_body]
fn system_font_database() -> (r: resvg::usvg::fontdb::Database) {
    let mut database = resvg::usvg::fontdb::Database::new();
    database.load_system_fonts();
    database
}

/// Relies on usvg's text layout, `Tree::convert_text`: text nodes in the
/// tree become path geometry, resolved against the given font database.
#[verifier::external_body]
fn convert_text_to_paths(tree: &mut resvg::usvg::Tree, database: &resvg::usvg::fontdb::Database) {
    tree.convert_text(database);
}

/// Relies on resvg, `Tree::from_usvg`: the renderable tree built from the
/// parsed document.
#[verifier::external_body]
fn build_render_tree(tree: &resvg::usvg::Tree) -> (r: resvg::Tree) {
    resvg::Tree::from_usvg(tree)
}

/// Target pixel dimensions for rasterizing a vector tree, from the already
/// scaled (and rounded) intrinsic size. Each axis is clamped to at least 1,
/// so that no zero-sized pixel buffer is ever allocated, and to at most
/// `u32::MAX`, the largest extent a pixel buffer can express.
pub fn pixel_dimensions(scaled_width: u64, scaled_height: u64) -> (r: (u32, u32))
    ensures
        r.0 >= 1 && r.1 >= 1,
        r.0 as int == clamped_axis(scaled_width as int),
        r.1 as int == clamped_axis(scaled_height as int),
{
    (clamp_axis(scaled_width), clamp_axis(scaled_height))
}

/// What one axis of a pixel buffer becomes: at least 1, at most `u32::MAX`,
/// otherwise the scaled size itself.
pub open spec fn clamped_axis(scaled: int) -> int {
    if scaled < 1 {
        1
    } else if scaled > u32::MAX {
        u32::MAX as int
    } else {
        scaled
    }
}

fn clamp_axis(scaled: u64) -> (r: u32)
    ensures
        r as int == clamped_axis(scaled as int),
{
    if scaled < 1 {
        1
    } else if scaled > u32::MAX as u64 {
        u32::MAX
    } else {
        scaled as u32
    }
}

} // verus!
