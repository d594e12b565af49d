//! Rendering of the static markdown pages into full HTML documents.
//!
//! The markdown-to-HTML conversion is a pure computation done by an outside
//! renderer; wrapping the result into a document body is verified string
//! assembly.  Which page content exists, and any styling, belongs to the web
//! layer.

use vstd::prelude::*;

verus! {

/// The HTML rendering of a markdown text, with default rendering options.
/// The value is whatever the renderer derives; it is a function of the
/// markdown text alone.
pub uninterp spec fn html_of_markdown(md: Seq<char>) -> Seq<char>;

/// Relies on `comrak::markdown_to_html` with `comrak::Options::default()`:
/// the rendered HTML is deterministic and depends on the markdown text
/// alone.
#[verifier::external_body]
fn markdown_html(md: &str) -> (r: String)
    ensures
        r@ == html_of_markdown(md@),
{
    comrak::markdown_to_html(md, &comrak::Options::default())
}

/// The opening of every rendered page, up to and through the `<body>` tag.
pub open spec fn page_head() -> Seq<char> {
    "<head><title>termlibs</title></head><body>"@
}

/// Wrap rendered HTML into a page: the fixed head, the content, and the
/// closing body tag.
pub fn wrap_body(html: &str) -> (r: String)
    ensures
        r@ == page_head() + html@ + "</body>"@,
{
    String::from_str("<head><title>termlibs</title></head><body>").concat(html).concat("</body>")
}

/// Render a markdown page into a complete HTML document.
pub fn render_page(markdown: &str) -> (r: String)
    ensures
        r@ == page_head() + html_of_markdown(markdown@) + "</body>"@,
{
    let html = markdown_html(markdown);
    wrap_body(html.as_str())
}

} // verus!
