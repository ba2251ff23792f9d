//! Permission reporting: the aggregate status the application exposes, and
//! the mapping from a privacy pane name to the system URL that opens it.
//! Probing the actual permissions is platform work done outside the
//! library.

use vstd::prelude::*;
use vstd::string::StringExecFns;
use crate::text::str_eq;

verus! {

/// Which of the required permissions are currently granted.
#[derive(Clone, Copy, Debug, PartialEq, Eq, Structural)]
pub struct PermissionStatus {
    pub microphone: bool,
    pub full_disk_access: bool,
    pub accessibility: bool,
}

/// Whether a pane name is one the application knows how to open.
pub open spec fn known_pane(pane: Seq<char>) -> bool {
    pane == "privacy_microphone"@ || pane == "privacy_full_disk_access"@ || pane
        == "privacy_accessibility"@
}

/// The system URL that opens the given privacy pane, or an error naming
/// the unknown pane.
pub fn preference_pane_url(pane: &str) -> (r: Result<&'static str, String>)
    ensures
        r is Ok <==> known_pane(pane@),
        pane@ == "privacy_microphone"@ ==> r->Ok_0@
            == "x-apple.systempreferences:com.apple.preference.security?Privacy_Microphone"@,
        pane@ == "privacy_full_disk_access"@ ==> r->Ok_0@
            == "x-apple.systempreferences:com.apple.preference.security?Privacy_AllFiles"@,
        pane@ == "privacy_accessibility"@ ==> r->Ok_0@
            == "x-apple.systempreferences:com.apple.preference.security?Privacy_Accessibility"@,
        r is Err ==> r->Err_0@ == "Unknown preference pane: "@ + pane@,
{
    proof {
        reveal_strlit("privacy_microphone");
        reveal_strlit("privacy_full_disk_access");
        reveal_strlit("privacy_accessibility");
        assert("privacy_microphone"@.len() == 18);
        assert("privacy_full_disk_access"@.len() == 24);
        assert("privacy_accessibility"@.len() == 21);
    }
    if str_eq(pane, "privacy_microphone") {
        Ok("x-apple.systempreferences:com.apple.preference.security?Privacy_Microphone")
    } else if str_eq(pane, "privacy_full_disk_access") {
        Ok("x-apple.systempreferences:com.apple.preference.security?Privacy_AllFiles")
    } else if str_eq(pane, "privacy_accessibility") {
        Ok("x-apple.systempreferences:com.apple.preference.security?Privacy_Accessibility")
    } else {
        Err(String::from_str("Unknown preference pane: ").concat(pane))
    }
}

} // verus!
