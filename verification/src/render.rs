//! The rendering pipeline, end to end: alert preprocessing, parsing, the
//! fenced-block and math transforms, serialization, and tag post-processing.

use vstd::prelude::*;

use crate::alerts::{process_github_alerts, spec_alerts};
use crate::events::{event_views, events_to_html, html_of, md_events_of, parse_markdown, MdEvent, MdEventView};
use crate::links::{asset_views, ImageAssetView, ImageStore};
use crate::rewrite::{post_process_html_tags, spec_post_process};
use crate::transforms::{
    process_code_blocks, process_math_expressions, spec_extract_fenced, spec_transform_math,
};

verus! {

/// The event stream of a document after the whole source-side pipeline:
/// alerts preprocessed, text parsed, `mermaid` and `math` fenced blocks
/// extracted, and math expressions transformed.
pub open spec fn spec_render_events(md: Seq<char>) -> Seq<MdEventView> {
    spec_transform_math(
        spec_extract_fenced(
            spec_extract_fenced(md_events_of(spec_alerts(md)), "mermaid"@),
            "math"@,
        ),
    )
}

/// The HTML fragment of a document before tag post-processing.
pub open spec fn spec_render_html(md: Seq<char>) -> Seq<char> {
    html_of(spec_render_events(md))
}

/// The final HTML fragment of a document, given the local images available.
pub open spec fn spec_render(md: Seq<char>, assets: Seq<ImageAssetView>) -> Seq<char> {
    spec_post_process(spec_render_html(md), assets)
}

/// Parses Markdown text into the engine's event stream.
pub fn markdown_to_events(text: &str) -> (r: Vec<MdEvent>)
    ensures
        event_views(r@) == md_events_of(text@),
{
    parse_markdown(text)
}

/// Serializes an event stream into an HTML string.
pub fn serialize_events(events: Vec<MdEvent>) -> (r: String)
    ensures
        r@ == html_of(event_views(events@)),
{
    events_to_html(events)
}

/// Runs the source-side pipeline: preprocesses alerts, parses, extracts
/// `mermaid` and `math` fenced blocks, transforms math expressions, and
/// serializes, exactly as `spec_render_html` says.
pub fn render_markdown_fragment(markdown: &str) -> (r: String)
    ensures
        r@ == spec_render_html(markdown@),
{
    let preprocessed = process_github_alerts(markdown);
    let events = parse_markdown(preprocessed.as_str());
    let events = process_code_blocks(events, "mermaid");
    let events = process_code_blocks(events, "math");
    let events = process_math_expressions(events);
    events_to_html(events)
}

/// Renders a Markdown document to its final HTML fragment, exactly as
/// `spec_render` says. The store holds the local images the caller has
/// resolved and read; an image absent from it leaves its tag unchanged.
pub fn render_to_html(markdown: &str, images: &ImageStore) -> (r: String)
    ensures
        r@ == spec_render(markdown@, asset_views(images.assets@)),
{
    let html = render_markdown_fragment(markdown);
    post_process_html_tags(html.as_str(), images)
}

} // verus!
