//! The syntax-highlight collaborator, behind trusted declarations.
//!
//! Styling is computed by syntect; this crate only decides which rows are
//! highlighted and stores the resulting per-grapheme style tags. The values
//! syntect works with (syntax sets, themes, line highlighters) are opaque
//! here and are carried through; what comes back is converted to the plain
//! `StyleTag` values the rows own.

use vstd::prelude::*;

use crate::row::StyleTag;

verus! {

#[verifier::external_type_specification]
#[verifier::external_body]
pub struct ExSyntaxSet(syntect::parsing::SyntaxSet);

#[verifier::external_type_specification]
#[verifier::external_body]
pub struct ExSyntaxReference(syntect::parsing::SyntaxReference);

#[verifier::external_type_specification]
#[verifier::external_body]
pub struct ExThemeSet(syntect::highlighting::ThemeSet);

#[verifier::external_type_specification]
#[verifier::external_body]
pub struct ExTheme(syntect::highlighting::Theme);

#[verifier::external_type_specification]
#[verifier::external_body]
pub struct ExStyle(syntect::highlighting::Style);

#[verifier::external_type_specification]
#[verifier::external_body]
pub struct ExHighlightLines<'a>(syntect::easy::HighlightLines<'a>);

/// Relies on syntect's `SyntaxSet::load_defaults_newlines`: loads the
/// bundled syntax definitions, for lines that keep their terminators.
#[verifier::external_body]
pub(crate) fn load_default_syntaxes() -> syntect::parsing::SyntaxSet {
    syntect::parsing::SyntaxSet::load_defaults_newlines()
}

/// Relies on syntect's `ThemeSet::load_defaults`: loads the bundled themes.
#[verifier::external_body]
pub(crate) fn load_default_themes() -> syntect::highlighting::ThemeSet {
    syntect::highlighting::ThemeSet::load_defaults()
}

/// Relies on syntect's `SyntaxSet::find_syntax_by_extension`: looks a syntax
/// up by file extension, `None` when the extension is not known.
#[verifier::external_body]
pub(crate) fn find_syntax_by_extension<'a>(
    ss: &'a syntect::parsing::SyntaxSet,
    extension: &str,
) -> Option<&'a syntect::parsing::SyntaxReference> {
    ss.find_syntax_by_extension(extension)
}

/// Relies on syntect's public `ThemeSet::themes` map: looks a theme up by
/// name, `None` when the set does not hold it.
#[verifier::external_body]
pub(crate) fn theme_by_name<'a>(
    ts: &'a syntect::highlighting::ThemeSet,
    name: &str,
) -> Option<&'a syntect::highlighting::Theme> {
    ts.themes.get(name)
}

/// Relies on syntect's `HighlightLines::new`: a fresh line highlighter for
/// one syntax and theme; its parse state then threads through the lines it
/// is handed, in order.
#[verifier::external_body]
pub(crate) fn new_highlighter<'a>(
    syntax: &syntect::parsing::SyntaxReference,
    theme: &'a syntect::highlighting::Theme,
) -> syntect::easy::HighlightLines<'a> {
    syntect::easy::HighlightLines::new(syntax, theme)
}

/// Relies on syntect's `HighlightLines::highlight_line`: styles one line,
/// returning styled spans of its text; `None` stands for its error case.
#[verifier::external_body]
pub(crate) fn highlight_line_spans(
    h: &mut syntect::easy::HighlightLines<'_>,
    line: &str,
    ss: &syntect::parsing::SyntaxSet,
) -> Option<Vec<(syntect::highlighting::Style, String)>> {
    match h.highlight_line(line, ss) {
        Ok(spans) => Some(spans.into_iter().map(|(st, t)| (st, t.to_string())).collect()),
        Err(_) => None,
    }
}

/// Relies on syntect `Style`'s public colour fields and `FontStyle::bits`:
/// reads one span style out into plain bytes.
#[verifier::external_body]
pub(crate) fn style_tag(st: &syntect::highlighting::Style) -> StyleTag {
    StyleTag {
        fg_r: st.foreground.r,
        fg_g: st.foreground.g,
        fg_b: st.foreground.b,
        bg_r: st.background.r,
        bg_g: st.background.g,
        bg_b: st.background.b,
        font_bits: st.font_style.bits(),
    }
}

} // verus!
