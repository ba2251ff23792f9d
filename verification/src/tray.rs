//! What the tray icon shows for a health status: the icon asset to load,
//! and the title used as a fallback where no asset exists. Loading assets
//! and driving the tray belong to the shell around the library.

use vstd::prelude::*;
use crate::text::str_eq;

verus! {

/// The icon asset for a health status; an unrecognized status falls back
/// to the default icon.
pub fn tray_icon_asset(status: &str) -> (r: &'static str)
    ensures
        status@ == "good"@ ==> r@ == "icon-good.png"@,
        status@ == "warning"@ ==> r@ == "icon-warning.png"@,
        status@ == "critical"@ ==> r@ == "icon-critical.png"@,
        status@ != "good"@ && status@ != "warning"@ && status@ != "critical"@ ==> r@
            == "icon.png"@,
{
    proof {
        reveal_strlit("good");
        reveal_strlit("warning");
        reveal_strlit("critical");
        assert("good"@.len() == 4);
        assert("warning"@.len() == 7);
        assert("critical"@.len() == 8);
    }
    if str_eq(status, "good") {
        "icon-good.png"
    } else if str_eq(status, "warning") {
        "icon-warning.png"
    } else if str_eq(status, "critical") {
        "icon-critical.png"
    } else {
        "icon.png"
    }
}

/// The title shown beside the default icon where no health-specific asset
/// is available: a marker for the two degraded states, nothing otherwise.
pub fn tray_title_fallback(status: &str) -> (r: &'static str)
    ensures
        status@ == "warning"@ ==> r@ == "\u{26a0}"@,
        status@ == "critical"@ ==> r@ == "!"@,
        status@ != "warning"@ && status@ != "critical"@ ==> r@ == ""@,
{
    proof {
        reveal_strlit("warning");
        reveal_strlit("critical");
        assert("warning"@.len() == 7);
        assert("critical"@.len() == 8);
    }
    if str_eq(status, "warning") {
        "\u{26a0}"
    } else if str_eq(status, "critical") {
        "!"
    } else {
        ""
    }
}

} // verus!
