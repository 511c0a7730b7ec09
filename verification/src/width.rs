//! Display-column width measurement of the footer line.
//!
//! Terminal columns are not bytes and not characters: multi-byte and wide
//! characters must be measured with display-column semantics, which the
//! terminal text library provides.

use vstd::prelude::*;

use crate::fragment::{frags_view, texts, Fragment};

verus! {

/// The display-column width of a line made of the given fragment texts, as
/// the terminal text library measures it.
pub uninterp spec fn line_width_of(ts: Seq<Seq<char>>) -> usize;

/// Relies on ratatui::text::Line::width: the display-column width of a line
/// is the sum of the unicode display widths of its spans' contents, and so a
/// function of the fragment texts alone.
#[verifier::external_body]
pub(crate) fn line_display_width(frags: &Vec<Fragment>) -> (w: usize)
    ensures
        w == line_width_of(texts(frags_view(frags@))),
{
    let spans: Vec<ratatui::text::Span> = frags
        .iter()
        .map(|f| ratatui::text::Span::raw(f.text.as_str()))
        .collect();
    ratatui::text::Line::from(spans).width()
}

} // verus!
