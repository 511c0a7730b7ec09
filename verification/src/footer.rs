//! The footer itself: identity strings built once at startup, the
//! space-constrained overlay selector, and the per-frame render plan.

use vstd::prelude::*;
use vstd::string::{StrSliceExecFns, StringExecFns};

use crate::fragment::{frags_view, texts, FocusMode, Fragment, HostQuery};
use crate::hints::{build_hints, spec_hints};
use crate::width::{line_display_width, line_width_of};

verus! {

/// The version label alone, wrapped in single spaces.
pub open spec fn bare_version_of(version: Seq<char>) -> Seq<char> {
    " mqttui "@ + version + " "@
}

/// The broker display alone, wrapped in single spaces.
pub open spec fn short_identity_of(broker: Seq<char>) -> Seq<char> {
    " "@ + broker + " "@
}

/// The longest identity form: version block, literal `@`, space, broker
/// display, trailing space.
pub open spec fn full_identity_of(version: Seq<char>, broker: Seq<char>) -> Seq<char> {
    bare_version_of(version) + "@ "@ + broker + " "@
}

/// The columns left beside the hint line, clamped to zero when the line is
/// already wider than the area.
pub open spec fn remaining_cols(line_width: int, area_width: int) -> int {
    if area_width >= line_width {
        area_width - line_width
    } else {
        0
    }
}

/// The overlay owed for a given leftover width: the first of full identity,
/// short identity, bare version whose length is strictly below `remaining`,
/// or none when none fits.
pub open spec fn overlay_choice(
    full: Seq<char>,
    short: Seq<char>,
    bare: Seq<char>,
    remaining: int,
) -> Option<Seq<char>> {
    if (full.len() as int) < remaining {
        Some(full)
    } else if (short.len() as int) < remaining {
        Some(short)
    } else if (bare.len() as int) < remaining {
        Some(bare)
    } else {
        None
    }
}

/// The status footer: three identity strings precomputed at construction,
/// immutable thereafter.
pub struct Footer {
    pub bare_version: String,
    pub broker: String,
    pub full_info: String,
}

/// The overlay badge of one frame: its text and the one-row sub-rectangle of
/// columns it occupies at the right edge of the footer.
pub struct OverlayPlan {
    pub text: String,
    pub x: u16,
    pub width: u16,
}

/// Everything one refresh draws: the hint fragments of the full-width line
/// and the overlay badge, when one fits.
pub struct FooterPlan {
    pub fragments: Vec<Fragment>,
    pub overlay: Option<OverlayPlan>,
}

impl Footer {
    /// Builds the three identity strings from the broker display text and
    /// the build version, once at startup.
    pub fn new(broker: &str, version: &str) -> (f: Footer)
        ensures
            f.bare_version@ == bare_version_of(version@),
            f.broker@ == short_identity_of(broker@),
            f.full_info@ == full_identity_of(version@, broker@),
    {
        let mut bare = " mqttui ".to_owned();
        bare.append(version);
        bare.append(" ");
        let mut short = " ".to_owned();
        short.append(broker);
        short.append(" ");
        let mut full = bare.clone();
        full.append("@ ");
        full.append(broker);
        full.append(" ");
        proof {
            assert(bare@ =~= bare_version_of(version@));
            assert(short@ =~= short_identity_of(broker@));
            assert(full@ =~= full_identity_of(version@, broker@));
        }
        Footer { bare_version: bare, broker: short, full_info: full }
    }

    /// Picks the longest identity string that still fits in the space left
    /// beside the hint line: full identity first, then short identity, then
    /// bare version, or none. A hint line wider than the area leaves zero
    /// columns; it never underflows.
    pub fn select_overlay(&self, line_width: usize, area_width: usize) -> (r: Option<&str>)
        ensures
            r.deep_view() == overlay_choice(
                self.full_info@,
                self.broker@,
                self.bare_version@,
                remaining_cols(line_width as int, area_width as int),
            ),
    {
        let remaining: usize = if area_width >= line_width {
            area_width - line_width
        } else {
            0
        };
        if self.full_info.as_str().unicode_len() < remaining {
            Some(self.full_info.as_str())
        } else if self.broker.as_str().unicode_len() < remaining {
            Some(self.broker.as_str())
        } else if self.bare_version.as_str().unicode_len() < remaining {
            Some(self.bare_version.as_str())
        } else {
            None
        }
    }

    /// Computes one refresh of the footer: the hint fragments for the focus
    /// snapshot, and the overlay badge placed right-aligned in the leftover
    /// columns, when one fits.
    pub fn plan(&self, focus: &FocusMode, host: HostQuery, area_width: u16) -> (p: FooterPlan)
        ensures
            frags_view(p.fragments@) == spec_hints(*focus, host),
            ({
                let rem = remaining_cols(
                    line_width_of(texts(spec_hints(*focus, host))) as int,
                    area_width as int,
                );
                match p.overlay {
                    Some(ov) => overlay_choice(
                        self.full_info@,
                        self.broker@,
                        self.bare_version@,
                        rem,
                    ) == Some(ov.text@) && ov.width as nat == ov.text@.len() && ov.x == area_width
                        - ov.width,
                    None => overlay_choice(
                        self.full_info@,
                        self.broker@,
                        self.bare_version@,
                        rem,
                    ) is None,
                }
            }),
    {
        let fragments = build_hints(focus, host);
        let line_width = line_display_width(&fragments);
        let overlay = match self.select_overlay(line_width, area_width as usize) {
            Some(s) => {
                let len = s.unicode_len();
                assert(len < area_width);
                Some(OverlayPlan { text: s.to_owned(), x: area_width - (len as u16), width: (
                len as u16) })
            },
            None => None,
        };
        FooterPlan { fragments, overlay }
    }
}

/// Law: the selector never returns a string whose length is at least the
/// leftover width, and zero leftover width always yields no overlay.
pub proof fn lemma_overlay_fits(full: Seq<char>, short: Seq<char>, bare: Seq<char>, remaining: int)
    ensures
        (match overlay_choice(full, short, bare, remaining) {
            Some(s) => (s.len() as int) < remaining,
            None => true,
        }),
        remaining <= 0 ==> overlay_choice(full, short, bare, remaining) is None,
{
}

/// Law: the selector prefers the full identity over the short identity over
/// the bare version whenever more than one of them fits.
pub proof fn lemma_overlay_preference(
    full: Seq<char>,
    short: Seq<char>,
    bare: Seq<char>,
    remaining: int,
)
    ensures
        (full.len() as int) < remaining ==> overlay_choice(full, short, bare, remaining) == Some(
            full,
        ),
        (full.len() as int) >= remaining && (short.len() as int) < remaining ==> overlay_choice(
            full,
            short,
            bare,
            remaining,
        ) == Some(short),
        (full.len() as int) >= remaining && (short.len() as int) >= remaining && (
        bare.len() as int) < remaining ==> overlay_choice(full, short, bare, remaining) == Some(
            bare,
        ),
        (full.len() as int) >= remaining && (short.len() as int) >= remaining && (
        bare.len() as int) >= remaining ==> overlay_choice(full, short, bare, remaining) is None,
{
}

/// Law: a hint line wider than the area clamps the leftover width to zero
/// instead of underflowing, and so no overlay is chosen.
pub proof fn lemma_narrow_area_no_overlay(
    full: Seq<char>,
    short: Seq<char>,
    bare: Seq<char>,
    line_width: int,
    area_width: int,
)
    requires
        area_width < line_width,
    ensures
        remaining_cols(line_width, area_width) == 0,
        overlay_choice(full, short, bare, remaining_cols(line_width, area_width)) is None,
{
}

/// Law: the three identity strings are ordered by length, bare version no
/// longer than short identity no longer than full identity. The first
/// comparison needs the broker display to carry at least seven characters
/// more than the version label; the second holds for every broker display.
pub proof fn lemma_identity_lengths(version: Seq<char>, broker: Seq<char>)
    requires
        broker.len() >= version.len() + 7,
    ensures
        bare_version_of(version).len() <= short_identity_of(broker).len(),
        short_identity_of(broker).len() <= full_identity_of(version, broker).len(),
{
    reveal_strlit(" mqttui ");
    reveal_strlit(" ");
    reveal_strlit("@ ");
}

} // verus!
