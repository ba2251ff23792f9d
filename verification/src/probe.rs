//! Probe output as plain values, and the trusted boundary to the JSON
//! parser and the clock that interpreting a probe needs.

use vstd::prelude::*;

verus! {

/// One completed run of the external diagnostic tool: whether the process
/// exited successfully, and what it wrote to its two output streams.
pub struct ProbeOutput {
    pub success: bool,
    pub stdout: String,
    pub stderr: String,
}

/// Mathematical model of a probe run.
#[verifier::ext_equal]
pub struct ProbeOutputView {
    pub success: bool,
    pub stdout: Seq<char>,
    pub stderr: Seq<char>,
}

impl View for ProbeOutput {
    type V = ProbeOutputView;

    open spec fn view(&self) -> ProbeOutputView {
        ProbeOutputView { success: self.success, stdout: self.stdout@, stderr: self.stderr@ }
    }
}

/// Whether a text is a single well-formed JSON document, as
/// `serde_json::from_str` decides it.
pub uninterp spec fn json_wellformed(s: Seq<char>) -> bool;

/// The string value of the named top-level field of the JSON document
/// parsed from `s`, if the document has that field and it is a string, as
/// `serde_json::Value::get` and `Value::as_str` decide it.
pub uninterp spec fn json_string_field(s: Seq<char>, field: Seq<char>) -> Option<Seq<char>>;

/// Relies on `serde_json::from_str::<Value>` (whether `s` is one valid JSON
/// document), and on `serde_json::Value::get` and `Value::as_str` (the
/// string value of a top-level field, if any). Both outcomes depend on the
/// text alone. On a parse failure the parser's own description is returned.
#[verifier::external_body]
pub(crate) fn json_string_field_exec(s: &str, field: &str) -> (r: Result<Option<String>, String>)
    ensures
        r is Ok <==> json_wellformed(s@),
        r is Ok ==> (r->Ok_0 is Some <==> json_string_field(s@, field@) is Some),
        r is Ok && r->Ok_0 is Some ==> r->Ok_0->0@ == json_string_field(s@, field@)->0,
{
    match serde_json::from_str::<serde_json::Value>(s) {
        Ok(value) => Ok(value.get(field).and_then(|f| f.as_str()).map(|f| f.to_string())),
        Err(e) => Err(format!("{}", e)),
    }
}

/// Relies on chrono's `Utc::now().to_rfc3339()`: the completion time of a
/// probe, rendered as an RFC 3339 timestamp. The result depends on the
/// clock, so nothing is promised of it.
#[verifier::external_body]
pub(crate) fn now_rfc3339() -> String {
    chrono::Utc::now().to_rfc3339()
}

} // verus!
