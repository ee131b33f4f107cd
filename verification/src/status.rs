//! File virus-scan status to badge appearance.

use vstd::prelude::*;
use vstd::string::*;

use crate::text::str_eq;

verus! {

/// How a status badge is drawn.
#[derive(Clone, Copy, Debug, PartialEq, Eq, Structural)]
pub enum BadgeAppearance {
    Filled,
    Tint,
    Outline,
}

/// The color of a status badge.
#[derive(Clone, Copy, Debug, PartialEq, Eq, Structural)]
pub enum BadgeColor {
    Success,
    Informative,
    Danger,
    Subtle,
}

/// The label, appearance and color that a `file_status` wire string maps to.
pub open spec fn badge_spec(status: Seq<char>) -> (Seq<char>, BadgeAppearance, BadgeColor) {
    if status == "available"@ {
        ("Available"@, BadgeAppearance::Filled, BadgeColor::Success)
    } else if status == "pending_virus_scan"@ || status == "virus_scan_complete"@ {
        ("Pending"@, BadgeAppearance::Tint, BadgeColor::Informative)
    } else if status == "quarantined"@ {
        ("Quarantined"@, BadgeAppearance::Filled, BadgeColor::Danger)
    } else {
        (status, BadgeAppearance::Outline, BadgeColor::Subtle)
    }
}

/// Maps a File `file_status` wire string to its badge label, appearance and
/// color; an unknown status is shown as it is, in a subtle outline.
pub fn badge_for_file_status(status: &str) -> (res: (String, BadgeAppearance, BadgeColor))
    ensures
        (res.0@, res.1, res.2) == badge_spec(status@),
        status@ == "available"@ ==> res.0@ == "Available"@ && res.1 == BadgeAppearance::Filled
            && res.2 == BadgeColor::Success,
        status@ == "pending_virus_scan"@ || status@ == "virus_scan_complete"@ ==> res.0@
            == "Pending"@ && res.1 == BadgeAppearance::Tint && res.2 == BadgeColor::Informative,
        status@ == "quarantined"@ ==> res.0@ == "Quarantined"@ && res.1 == BadgeAppearance::Filled
            && res.2 == BadgeColor::Danger,
        status@ != "available"@ && status@ != "pending_virus_scan"@ && status@
            != "virus_scan_complete"@ && status@ != "quarantined"@ ==> res.0@ == status@ && res.1
            == BadgeAppearance::Outline && res.2 == BadgeColor::Subtle,
{
    proof {
        reveal_strlit("available");
        reveal_strlit("pending_virus_scan");
        reveal_strlit("virus_scan_complete");
        reveal_strlit("quarantined");
        assert("available"@.len() != "quarantined"@.len());
        assert("pending_virus_scan"@.len() != "quarantined"@.len());
        assert("virus_scan_complete"@.len() != "quarantined"@.len());
        assert("available"@.len() != "pending_virus_scan"@.len());
        assert("available"@.len() != "virus_scan_complete"@.len());
    }
    if str_eq(status, "available") {
        (String::from_str("Available"), BadgeAppearance::Filled, BadgeColor::Success)
    } else if str_eq(status, "pending_virus_scan") || str_eq(status, "virus_scan_complete") {
        (String::from_str("Pending"), BadgeAppearance::Tint, BadgeColor::Informative)
    } else if str_eq(status, "quarantined") {
        (String::from_str("Quarantined"), BadgeAppearance::Filled, BadgeColor::Danger)
    } else {
        (String::from_str(status), BadgeAppearance::Outline, BadgeColor::Subtle)
    }
}

} // verus!
