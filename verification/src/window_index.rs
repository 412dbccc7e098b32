//! The HTML index pages handed to new web-view windows, parameterized by
//! the resolved theme.

use vstd::prelude::*;

use crate::text::{extend_str, string_of};
use crate::theme::Theme;

verus! {

/// The value of the `data-theme` attribute for a theme.
pub open spec fn spec_theme_attr(t: Theme) -> Seq<char> {
    match t {
        Theme::Auto => "auto"@,
        Theme::Light => "light"@,
        Theme::Dark => "dark"@,
    }
}

/// The `data-theme` attribute value of a theme.
pub fn theme_attr(t: Theme) -> (r: &'static str)
    ensures
        r@ == spec_theme_attr(t),
{
    match t {
        Theme::Auto => "auto",
        Theme::Light => "light",
        Theme::Dark => "dark",
    }
}

/// The index page of a main window, carrying the theme on `body`.
pub open spec fn spec_custom_index(t: Theme) -> Seq<char> {
    "<!DOCTYPE html>\n<html>\n    <head>\n        <title>Arto</title>\n        <meta name=\"viewport\" content=\"width=device-width, initial-scale=1.0, maximum-scale=1.0, user-scalable=no\">\n        <!-- CUSTOM HEAD -->\n    </head>\n    <body data-theme=\""@
        + spec_theme_attr(t)
        + "\">\n        <div id=\"main\"></div>\n        <!-- MODULE LOADER -->\n    </body>\n</html>\n"@
}

/// Builds the index page of a main window, exactly as `spec_custom_index`
/// says.
pub fn build_custom_index(theme: Theme) -> (r: String)
    ensures
        r@ == spec_custom_index(theme),
{
    let mut out: Vec<char> = Vec::new();
    extend_str(
        &mut out,
        "<!DOCTYPE html>\n<html>\n    <head>\n        <title>Arto</title>\n        <meta name=\"viewport\" content=\"width=device-width, initial-scale=1.0, maximum-scale=1.0, user-scalable=no\">\n        <!-- CUSTOM HEAD -->\n    </head>\n    <body data-theme=\"",
    );
    extend_str(&mut out, theme_attr(theme));
    extend_str(
        &mut out,
        "\">\n        <div id=\"main\"></div>\n        <!-- MODULE LOADER -->\n    </body>\n</html>\n",
    );
    proof {
        assert(out@ =~= spec_custom_index(theme));
    }
    string_of(&out)
}

/// The index page of the diagram viewer window, carrying the theme on
/// `body`.
pub open spec fn spec_mermaid_window_index(t: Theme) -> Seq<char> {
    "<!DOCTYPE html>\n<html>\n    <head>\n        <title>Mermaid Viewer - Arto</title>\n        <meta name=\"viewport\" content=\"width=device-width, initial-scale=1.0\">\n        <!-- CUSTOM HEAD -->\n    </head>\n    <body data-theme=\""@
        + spec_theme_attr(t)
        + "\" class=\"mermaid-window-body\">\n        <div id=\"main\"></div>\n        <!-- MODULE LOADER -->\n    </body>\n</html>\n"@
}

/// Builds the index page of the diagram viewer window, exactly as
/// `spec_mermaid_window_index` says.
pub fn build_mermaid_window_index(theme: Theme) -> (r: String)
    ensures
        r@ == spec_mermaid_window_index(theme),
{
    let mut out: Vec<char> = Vec::new();
    extend_str(
        &mut out,
        "<!DOCTYPE html>\n<html>\n    <head>\n        <title>Mermaid Viewer - Arto</title>\n        <meta name=\"viewport\" content=\"width=device-width, initial-scale=1.0\">\n        <!-- CUSTOM HEAD -->\n    </head>\n    <body data-theme=\"",
    );
    extend_str(&mut out, theme_attr(theme));
    extend_str(
        &mut out,
        "\" class=\"mermaid-window-body\">\n        <div id=\"main\"></div>\n        <!-- MODULE LOADER -->\n    </body>\n</html>\n",
    );
    proof {
        assert(out@ =~= spec_mermaid_window_index(theme));
    }
    string_of(&out)
}

} // verus!
