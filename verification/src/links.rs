//! Resource-reference handling of the tag post-processor: URL
//! classification, the local-anchor rewrite, and the embedding of local
//! images as data URIs.

use vstd::prelude::*;

use crate::escape::{escape_js, spec_escape_js};
use crate::paths::{eq_str, file_extension, get_mime_type, spec_extension, spec_mime_type};
use crate::text::{chars_of, eq_chars, extend_chars, extend_str, starts_with_chars, string_of};

verus! {

/// How a URL is classified: a web URL, an inline data URI, or a local path.
#[derive(Clone, Copy, PartialEq, Eq, Debug, Structural)]
pub enum UrlClass {
    Http,
    DataUri,
    LocalPath,
}

/// The classification of a URL string: `Http` when it starts with
/// `http://` or `https://`, `DataUri` when it starts with `data:`, and
/// `LocalPath` otherwise.
pub open spec fn spec_url_class(s: Seq<char>) -> UrlClass {
    if "http://"@.is_prefix_of(s) || "https://"@.is_prefix_of(s) {
        UrlClass::Http
    } else if "data:"@.is_prefix_of(s) {
        UrlClass::DataUri
    } else {
        UrlClass::LocalPath
    }
}

/// Classifies a URL string, exactly as `spec_url_class` says.
pub fn classify_url(s: &str) -> (r: UrlClass)
    ensures
        r == spec_url_class(s@),
{
    let sc = chars_of(s);
    let http = chars_of("http://");
    let https = chars_of("https://");
    let data = chars_of("data:");
    if starts_with_chars(&sc, &http) || starts_with_chars(&sc, &https) {
        UrlClass::Http
    } else if starts_with_chars(&sc, &data) {
        UrlClass::DataUri
    } else {
        UrlClass::LocalPath
    }
}

/// The inline script of a rewritten local link: on a primary or middle
/// click it suppresses the default action and hands the link's target and
/// the button to the `handleMarkdownLinkClick` bridge function.
pub open spec fn spec_anchor_script(href: Seq<char>) -> Seq<char> {
    "if (event.button === 0 || event.button === 1) {\n    event.preventDefault();\n    window.handleMarkdownLinkClick('"@
        + spec_escape_js(href) + "', event.button); \n}"@
}

/// The class of a rewritten local link: `md-link` for a Markdown target,
/// `md-link md-link-invalid` for any other extension.
pub open spec fn spec_anchor_class(href: Seq<char>) -> Seq<char> {
    if spec_extension(href) == Some("md"@) || spec_extension(href) == Some("markdown"@) {
        "md-link"@
    } else {
        "md-link md-link-invalid"@
    }
}

/// How one anchor is rewritten: `None` (the tag stays unchanged) for a web
/// URL or a target without an extension; otherwise the class and the inline
/// click script of the `span` that replaces it.
pub open spec fn spec_anchor_rewrite(href: Seq<char>) -> Option<(Seq<char>, Seq<char>)> {
    if spec_url_class(href) == UrlClass::Http {
        None
    } else if spec_extension(href) is None {
        None
    } else {
        Some((spec_anchor_class(href), spec_anchor_script(href)))
    }
}

/// The attributes of the `span` that replaces one local link.
pub struct AnchorRewrite {
    /// Value of the `class` attribute.
    pub class: String,
    /// Value of the `onmousedown` attribute.
    pub onmousedown: String,
}

/// Decides whether and how an anchor is rewritten, exactly as
/// `spec_anchor_rewrite` says: `Some` exactly for a non-web target with an
/// extension, with `md-link` alone exactly for `md` and `markdown` targets.
pub fn anchor_rewrite(href: &str) -> (r: Option<AnchorRewrite>)
    ensures
        match r {
            Some(a) => spec_anchor_rewrite(href@) == Some((a.class@, a.onmousedown@)),
            None => spec_anchor_rewrite(href@) is None,
        },
{
    let class_of = classify_url(href);
    if class_of == UrlClass::Http {
        return None;
    }
    let ext = match file_extension(href) {
        Some(e) => e,
        None => {
            return None;
        },
    };
    let class = if eq_str(ext.as_str(), "md") || eq_str(ext.as_str(), "markdown") {
        chars_of("md-link")
    } else {
        chars_of("md-link md-link-invalid")
    };
    let hc = chars_of(href);
    let escaped = escape_js(&hc);
    let mut script: Vec<char> = Vec::new();
    extend_str(
        &mut script,
        "if (event.button === 0 || event.button === 1) {\n    event.preventDefault();\n    window.handleMarkdownLinkClick('",
    );
    extend_chars(&mut script, &escaped);
    extend_str(&mut script, "', event.button); \n}");
    proof {
        assert(script@ =~= spec_anchor_script(href@));
    }
    Some(
        AnchorRewrite {
            class: string_of(&class),
            onmousedown: string_of(&script),
        },
    )
}

/// One local image made available to the post-processor: the `src` string
/// it stands under in the HTML, the resolved filesystem path (whose
/// extension decides the MIME type), and the file's bytes.
pub struct ImageAsset {
    pub src: String,
    pub path: String,
    pub bytes: Vec<u8>,
}

/// The mathematical value of one image asset.
pub struct ImageAssetView {
    pub src: Seq<char>,
    pub path: Seq<char>,
    pub bytes: Seq<u8>,
}

impl View for ImageAsset {
    type V = ImageAssetView;

    open spec fn view(&self) -> ImageAssetView {
        ImageAssetView { src: self.src@, path: self.path@, bytes: self.bytes@ }
    }
}

/// The values of a whole asset vector.
pub open spec fn asset_views(s: Seq<ImageAsset>) -> Seq<ImageAssetView> {
    s.map_values(|a: ImageAsset| a@)
}

/// The local images available while post-processing one document. An image
/// whose file could not be resolved or read is simply absent, and its tags
/// stay unchanged.
pub struct ImageStore {
    pub assets: Vec<ImageAsset>,
}

impl ImageStore {
    /// A store holding no images.
    pub fn new() -> (r: ImageStore)
        ensures
            asset_views(r.assets@) == Seq::<ImageAssetView>::empty(),
    {
        let r = ImageStore { assets: Vec::new() };
        proof {
            assert(asset_views(r.assets@) =~= Seq::<ImageAssetView>::empty());
        }
        r
    }

    /// Adds one image: its `src` string, its resolved path, and its bytes.
    pub fn add(&mut self, src: String, path: String, bytes: Vec<u8>)
        ensures
            asset_views(final(self).assets@) == asset_views(old(self).assets@).push(
                ImageAssetView { src: src@, path: path@, bytes: bytes@ },
            ),
    {
        let ghost before = self.assets@;
        let asset = ImageAsset { src, path, bytes };
        let ghost av = asset@;
        self.assets.push(asset);
        proof {
            assert(asset_views(self.assets@) =~= asset_views(before).push(av));
        }
    }
}

/// The first image asset registered under the given `src`, if any.
pub open spec fn spec_lookup(assets: Seq<ImageAssetView>, src: Seq<char>) -> Option<ImageAssetView>
    decreases assets.len(),
{
    if assets.len() == 0 {
        None
    } else if assets[0].src == src {
        Some(assets[0])
    } else {
        spec_lookup(assets.skip(1), src)
    }
}

/// What the encoding of the given bytes under standard base64 (with
/// padding) is. The encoding is a pure function of the bytes.
pub uninterp spec fn base64_of(bytes: Seq<u8>) -> Seq<char>;

/// Relies on the `base64` crate's `STANDARD` engine: encodes the bytes
/// under standard base64 with padding, a pure function of the bytes.
#[verifier::external_body]
fn base64_encode(bytes: &Vec<u8>) -> (r: String)
    ensures
        r@ == base64_of(bytes@),
{
    base64::Engine::encode(&base64::engine::general_purpose::STANDARD, bytes)
}

/// The replacement of one image's `src`: `None` (the tag stays unchanged)
/// for a web URL, a data URI, or a local image that is not in the store;
/// otherwise the data URI holding the image's MIME type and base64-encoded
/// bytes.
pub open spec fn spec_image_data_url(assets: Seq<ImageAssetView>, src: Seq<char>) -> Option<
    Seq<char>,
> {
    if spec_url_class(src) != UrlClass::LocalPath {
        None
    } else {
        match spec_lookup(assets, src) {
            None => None,
            Some(a) => Some(
                "data:"@ + spec_mime_type(a.path) + ";base64,"@ + base64_of(a.bytes),
            ),
        }
    }
}

/// Decides whether and how an image's `src` is replaced, exactly as
/// `spec_image_data_url` says: a data URI exactly for a local `src` present
/// in the store, and no change otherwise (the fail-open path).
pub fn image_data_url(src: &str, images: &ImageStore) -> (r: Option<String>)
    ensures
        match r {
            Some(u) => spec_image_data_url(asset_views(images.assets@), src@) == Some(u@),
            None => spec_image_data_url(asset_views(images.assets@), src@) is None,
        },
{
    let class_of = classify_url(src);
    if class_of == UrlClass::Http || class_of == UrlClass::DataUri {
        return None;
    }
    proof {
        assert(spec_url_class(src@) == UrlClass::LocalPath) by {
            match spec_url_class(src@) {
                UrlClass::Http => assert(false),
                UrlClass::DataUri => assert(false),
                UrlClass::LocalPath => {},
            }
        }
    }
    let ghost all = asset_views(images.assets@);
    let sc = chars_of(src);
    let mut i: usize = 0;
    proof {
        assert(all.skip(0) =~= all);
    }
    while i < images.assets.len()
        invariant
            i <= images.assets@.len(),
            all == asset_views(images.assets@),
            sc@ == src@,
            spec_url_class(src@) == UrlClass::LocalPath,
            spec_lookup(all, src@) == spec_lookup(all.skip(i as int), src@),
        decreases images.assets@.len() - i,
    {
        let candidate = chars_of(images.assets[i].src.as_str());
        proof {
            assert(all.skip(i as int)[0] == all[i as int]);
            assert(all[i as int] == images.assets@[i as int]@);
        }
        if eq_chars(&candidate, &sc) {
            let asset = &images.assets[i];
            let mime = get_mime_type(asset.path.as_str());
            let encoded = base64_encode(&asset.bytes);
            let mut url: Vec<char> = Vec::new();
            extend_str(&mut url, "data:");
            extend_str(&mut url, mime);
            extend_str(&mut url, ";base64,");
            extend_str(&mut url, encoded.as_str());
            proof {
                assert(all[i as int].src == src@) by {
                    assert(candidate@ == images.assets@[i as int].src@);
                }
                assert(spec_lookup(all.skip(i as int), src@) == Some(all[i as int]));
                assert(spec_lookup(all, src@) == Some(all[i as int]));
                assert(url@ =~= "data:"@ + spec_mime_type(all[i as int].path) + ";base64,"@
                    + base64_of(all[i as int].bytes));
                assert(spec_image_data_url(all, src@) == Some(url@));
            }
            return Some(string_of(&url));
        }
        proof {
            assert(all.skip(i as int).skip(1) =~= all.skip(i + 1 as int));
        }
        i = i + 1;
    }
    proof {
        assert(all.skip(i as int) =~= Seq::<ImageAssetView>::empty());
    }
    None
}

} // verus!
