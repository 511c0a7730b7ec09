//! Data model of the footer: focus modes, host queries, and the styled text
//! fragments the footer line is made of.

use vstd::prelude::*;

verus! {

/// Which logical UI element currently receives key input. Owned by the host;
/// the footer only reads a snapshot of it each frame.
pub enum FocusMode {
    TopicOverview,
    TopicSearch { query: String },
    Payload,
    HistoryTable,
    CleanRetainedPopup(String),
}

/// Read-only view-reachability and selection queries answered by the host,
/// evaluated fresh for every render call.
#[derive(Clone, Copy)]
pub struct HostQuery {
    pub has_topic_selected: bool,
    pub can_switch_to_payload: bool,
    pub can_switch_to_history_table: bool,
}

/// The visual role of one fragment of the footer line.
#[derive(Clone, Copy, PartialEq, Eq)]
pub enum FragStyle {
    /// A key label: inverse/bold emphasis.
    Key,
    /// Plain caption text (action labels, spacers, live search text).
    Plain,
    /// The distinct emphasis of the search label.
    Search,
}

/// One styled fragment of the footer line.
pub struct Fragment {
    pub text: String,
    pub style: FragStyle,
}

/// The mathematical model of a fragment: its text as a sequence of
/// characters, together with its style.
pub struct FragModel {
    pub text: Seq<char>,
    pub style: FragStyle,
}

impl View for Fragment {
    type V = FragModel;

    open spec fn view(&self) -> FragModel {
        FragModel { text: self.text@, style: self.style }
    }
}

/// The model of a whole fragment vector.
pub open spec fn frags_view(s: Seq<Fragment>) -> Seq<FragModel> {
    s.map_values(|f: Fragment| f@)
}

/// The texts of a modelled fragment sequence, in display order.
pub open spec fn texts(ms: Seq<FragModel>) -> Seq<Seq<char>> {
    ms.map_values(|m: FragModel| m.text)
}

/// Builds one fragment from a text and a style.
pub fn frag(text: &str, style: FragStyle) -> (f: Fragment)
    ensures
        f@ == (FragModel { text: text@, style }),
{
    Fragment { text: text.to_owned(), style }
}

} // verus!
