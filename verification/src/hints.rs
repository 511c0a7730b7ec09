//! The hint builder: from the focus snapshot and the host's queries to the
//! ordered sequence of styled fragments shown in the footer line.

use vstd::prelude::*;
use vstd::string::StringExecFns;

use crate::fragment::{frag, frags_view, FocusMode, FragModel, FragStyle, Fragment, HostQuery};

verus! {

/// The model of one key/action hint: the key label with emphasis and the
/// action caption, each wrapped in single spaces.
pub open spec fn pair(key: Seq<char>, action: Seq<char>) -> Seq<FragModel> {
    seq![
        FragModel { text: " "@ + key + " "@, style: FragStyle::Key },
        FragModel { text: " "@ + action + " "@, style: FragStyle::Plain },
    ]
}

/// The exact fragment sequence owed for each focus mode, in display order,
/// most important actions first.
pub open spec fn spec_hints(focus: FocusMode, host: HostQuery) -> Seq<FragModel> {
    match focus {
        FocusMode::TopicOverview => pair("q"@, "Quit"@) + pair("/"@, "Search"@) + (
        if host.has_topic_selected {
            pair("Del"@, "Clean retained"@)
        } else {
            Seq::empty()
        }) + (if host.can_switch_to_payload {
            pair("Tab"@, "Switch to Payload"@)
        } else if host.can_switch_to_history_table {
            pair("Tab"@, "Switch to History"@)
        } else {
            Seq::empty()
        }),
        FocusMode::TopicSearch { query } => pair("↑"@, "Before"@) + pair("↓"@, "Next"@) + pair(
            "Enter"@,
            "Open All"@,
        ) + pair("Esc"@, "Clear"@) + seq![
            FragModel { text: "Search: "@, style: FragStyle::Search },
            FragModel { text: " "@, style: FragStyle::Plain },
            FragModel { text: query@, style: FragStyle::Plain },
        ],
        FocusMode::Payload => pair("q"@, "Quit"@) + (if host.can_switch_to_history_table {
            pair("Tab"@, "Switch to History"@)
        } else {
            pair("Tab"@, "Switch to Topics"@)
        }),
        FocusMode::HistoryTable => pair("q"@, "Quit"@) + pair("Tab"@, "Switch to Topics"@),
        FocusMode::CleanRetainedPopup(_) => pair("Enter"@, "Clean topic tree"@) + pair(
            "Any"@,
            "Abort"@,
        ),
    }
}

/// Wraps a label in single spaces, the fixed format of every hint fragment.
fn pad(s: &str) -> (r: String)
    ensures
        r@ == " "@ + s@ + " "@,
{
    let mut r = " ".to_owned();
    r.append(s);
    r.append(" ");
    r
}

/// Appends the two fragments of one key/action hint.
fn push_pair(v: &mut Vec<Fragment>, key: &str, action: &str)
    ensures
        frags_view(final(v)@) == frags_view(old(v)@) + pair(key@, action@),
{
    let k = pad(key);
    let a = pad(action);
    v.push(Fragment { text: k, style: FragStyle::Key });
    v.push(Fragment { text: a, style: FragStyle::Plain });
    proof {
        assert(frags_view(v@) =~= frags_view(old(v)@) + pair(key@, action@));
    }
}

/// Builds the footer's hint fragments for the current focus snapshot.
///
/// Pure in its inputs: the result is exactly the sequence `spec_hints` owes
/// for this focus mode and these host answers.
pub fn build_hints(focus: &FocusMode, host: HostQuery) -> (r: Vec<Fragment>)
    ensures
        frags_view(r@) == spec_hints(*focus, host),
{
    let mut v: Vec<Fragment> = Vec::new();
    match focus {
        FocusMode::TopicOverview => {
            push_pair(&mut v, "q", "Quit");
            push_pair(&mut v, "/", "Search");
            if host.has_topic_selected {
                push_pair(&mut v, "Del", "Clean retained");
            }
            if host.can_switch_to_payload {
                push_pair(&mut v, "Tab", "Switch to Payload");
            } else if host.can_switch_to_history_table {
                push_pair(&mut v, "Tab", "Switch to History");
            }
            proof {
                assert(frags_view(v@) =~= spec_hints(*focus, host));
            }
        },
        FocusMode::TopicSearch { query } => {
            push_pair(&mut v, "↑", "Before");
            push_pair(&mut v, "↓", "Next");
            push_pair(&mut v, "Enter", "Open All");
            push_pair(&mut v, "Esc", "Clear");
            v.push(frag("Search: ", FragStyle::Search));
            v.push(frag(" ", FragStyle::Plain));
            v.push(Fragment { text: query.clone(), style: FragStyle::Plain });
            proof {
                assert(frags_view(v@) =~= spec_hints(*focus, host));
            }
        },
        FocusMode::Payload => {
            push_pair(&mut v, "q", "Quit");
            if host.can_switch_to_history_table {
                push_pair(&mut v, "Tab", "Switch to History");
            } else {
                push_pair(&mut v, "Tab", "Switch to Topics");
            }
            proof {
                assert(frags_view(v@) =~= spec_hints(*focus, host));
            }
        },
        FocusMode::HistoryTable => {
            push_pair(&mut v, "q", "Quit");
            push_pair(&mut v, "Tab", "Switch to Topics");
            proof {
                assert(frags_view(v@) =~= spec_hints(*focus, host));
            }
        },
        FocusMode::CleanRetainedPopup(_) => {
            push_pair(&mut v, "Enter", "Clean topic tree");
            push_pair(&mut v, "Any", "Abort");
            proof {
                assert(frags_view(v@) =~= spec_hints(*focus, host));
            }
        },
    }
    v
}

} // verus!
