//! The tag post-processor: a streaming pass over the serialized HTML that
//! embeds local images as data URIs and turns local-file anchors into
//! click-interceptable spans. The streaming rewriting itself is done by the
//! external `lol_html` crate; every per-tag decision is made by the verified
//! functions of `crate::links`.

use vstd::prelude::*;

use crate::links::{anchor_rewrite, asset_views, image_data_url, ImageAssetView, ImageStore};
use crate::text::string_views;

use lol_html::html_content::Element;
use lol_html::{rewrite_str, ElementContentHandlers, HandlerResult, RewriteStrSettings};
use std::borrow::Cow;

verus! {

/// What one `lol_html` pass with an `img[src]` handler that replaces each
/// `src` by `spec_image_data_url` of it (where that is `Some`) produces for
/// the given HTML and image assets. The pass is a pure function of the two.
pub uninterp spec fn imgs_rewritten(html: Seq<char>, assets: Seq<ImageAssetView>) -> Seq<char>;

/// What one `lol_html` pass with an `a[href]` handler that replaces each
/// rewritable anchor by a `span` carrying `spec_anchor_rewrite`'s class and
/// script produces for the given HTML. The pass is a pure function of it.
pub uninterp spec fn anchors_rewritten(html: Seq<char>) -> Seq<char>;

/// The `src` attributes of the HTML's `img` tags, in document order, as one
/// `lol_html` pass with an `img[src]` handler sees them. A pure function of
/// the HTML.
pub uninterp spec fn img_srcs_of(html: Seq<char>) -> Seq<Seq<char>>;

/// Relies on `lol_html`'s `HtmlRewriter` with an `img[src]` selector: one
/// streaming pass that hands every img tag's `src` to the verified
/// `image_data_url` and stores its replacement, leaving all other bytes
/// unchanged, in order.
#[verifier::external_body]
fn rewrite_img_tags(html: &str, images: &ImageStore) -> (r: String)
    ensures
        r@ == imgs_rewritten(html@, asset_views(images.assets@)),
{
    let handler = ElementContentHandlers::default().element(|el: &mut Element| -> HandlerResult {
        if let Some(src) = el.get_attribute("src") {
            if let Some(url) = image_data_url(&src, images) {
                let _ = el.set_attribute("src", &url);
            }
        }
        Ok(())
    });
    let settings = RewriteStrSettings::new().append_element_content_handler(
        (Cow::Owned("img[src]".parse().unwrap()), handler),
    );
    rewrite_str(html, settings).unwrap_or_else(|_| html.to_string())
}

/// Relies on `lol_html`'s `HtmlRewriter` with an `a[href]` selector: one
/// streaming pass that hands every anchor's `href` to the verified
/// `anchor_rewrite` and, where it decides so, renames the tag to `span`,
/// removes `href`, and sets the decided `class` and `onmousedown`, leaving
/// all other bytes unchanged, in order.
#[verifier::external_body]
fn rewrite_anchor_tags(html: &str) -> (r: String)
    ensures
        r@ == anchors_rewritten(html@),
{
    let handler = ElementContentHandlers::default().element(|el: &mut Element| -> HandlerResult {
        if let Some(rw) = el.get_attribute("href").and_then(|h| anchor_rewrite(&h)) {
            let _ = el.set_tag_name("span");
            el.remove_attribute("href");
            let _ = el.set_attribute("class", &rw.class);
            let _ = el.set_attribute("onmousedown", &rw.onmousedown);
        }
        Ok(())
    });
    let settings = RewriteStrSettings::new().append_element_content_handler(
        (Cow::Owned("a[href]".parse().unwrap()), handler),
    );
    rewrite_str(html, settings).unwrap_or_else(|_| html.to_string())
}

/// Relies on `lol_html`'s `HtmlRewriter` with an `img[src]` selector: one
/// streaming pass that collects every img tag's `src` attribute, in
/// document order, writing nothing.
#[verifier::external_body]
fn scan_img_srcs(html: &str) -> (r: Vec<String>)
    ensures
        string_views(r@) == img_srcs_of(html@),
{
    let mut srcs: Vec<String> = Vec::new();
    let handler = ElementContentHandlers::default().element(|el: &mut Element| -> HandlerResult {
        if let Some(src) = el.get_attribute("src") {
            srcs.push(src);
        }
        Ok(())
    });
    let settings = RewriteStrSettings::new().append_element_content_handler(
        (Cow::Owned("img[src]".parse().unwrap()), handler),
    );
    let _ = rewrite_str(html, settings);
    srcs
}

/// The post-processed form of an HTML fragment: the image pass, then the
/// anchor pass.
pub open spec fn spec_post_process(html: Seq<char>, assets: Seq<ImageAssetView>) -> Seq<char> {
    anchors_rewritten(imgs_rewritten(html, assets))
}

/// Post-processes an HTML fragment: embeds the local images available in
/// the store as data URIs and converts local-file anchors into spans,
/// exactly as `spec_post_process` says.
pub fn post_process_html_tags(html: &str, images: &ImageStore) -> (r: String)
    ensures
        r@ == spec_post_process(html@, asset_views(images.assets@)),
{
    let with_images = rewrite_img_tags(html, images);
    rewrite_anchor_tags(with_images.as_str())
}

/// The `src` attributes of the HTML's `img` tags, in document order. The
/// caller resolves and reads the local ones to build an `ImageStore`.
pub fn collect_image_sources(html: &str) -> (r: Vec<String>)
    ensures
        string_views(r@) == img_srcs_of(html@),
{
    scan_img_srcs(html)
}

} // verus!
