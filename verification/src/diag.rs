//! Start-up diagnostics: one-line summaries of what the system tools report
//! about the application (code signature, quarantine flag, OS version, where
//! the executable runs from).

use vstd::prelude::*;
use vstd::string::StringExecFns;
use crate::text::{
    contains_seq, contains_text, find_with_prefix, first_with_prefix, lines, split_lines, trim,
    trim_text,
};

verus! {

pub open spec fn codesign_summary_spec(report: Seq<char>, success: bool) -> Seq<char> {
    match first_with_prefix(lines(report), "Authority="@) {
        Some(a) => trim(a),
        None => match first_with_prefix(lines(report), "Signature="@) {
            Some(s) => trim(s),
            None => if success {
                "signed (no authority line)"@
            } else {
                "unsigned or not a bundle"@
            },
        },
    }
}

/// Summary of a `codesign -dv` run, from what it wrote to stderr and whether it
/// succeeded: the first signing-authority line, else the first signature line,
/// else whether the executable is signed at all.
pub fn codesign_summary(report: &str, success: bool) -> (r: String)
    ensures
        r@ == codesign_summary_spec(report@, success),
{
    let ls = split_lines(report);
    match find_with_prefix(&ls, "Authority=") {
        Some(a) => trim_text(a.as_str()),
        None => match find_with_prefix(&ls, "Signature=") {
            Some(s) => trim_text(s.as_str()),
            None => if success {
                "signed (no authority line)".to_owned()
            } else {
                "unsigned or not a bundle".to_owned()
            },
        },
    }
}

/// Summary of reading the quarantine attribute: present, with its trimmed
/// value, when the read succeeded; absent otherwise.
pub fn quarantine_summary(success: bool, value: &str) -> (r: String)
    ensures
        success ==> r@ == "present ("@ + trim(value@) + ")"@,
        !success ==> r@ == "absent"@,
{
    if success {
        let mut out = "present (".to_owned();
        let t = trim_text(value);
        out.append(t.as_str());
        out.append(")");
        out
    } else {
        "absent".to_owned()
    }
}

/// The OS version reported by the system tool, trimmed; "unknown" when the tool
/// could not run or printed nothing.
pub fn os_version_summary(output: Option<&str>) -> (r: String)
    ensures
        output matches Some(o) ==> (trim(o@).len() > 0 ==> r@ == trim(o@)),
        output matches Some(o) ==> (trim(o@).len() == 0 ==> r@ == "unknown"@),
        output is None ==> r@ == "unknown"@,
{
    match output {
        Some(o) => {
            let t = trim_text(o);
            if t.as_str().is_empty() {
                "unknown".to_owned()
            } else {
                t
            }
        },
        None => "unknown".to_owned(),
    }
}

/// Whether the executable runs from a randomized App Translocation path, where
/// the system forgets permission grants between launches.
pub fn is_translocated(exe_path: &str) -> (r: bool)
    ensures
        r == contains_seq(exe_path@, "/AppTranslocation/"@),
{
    contains_text(exe_path, "/AppTranslocation/")
}

} // verus!
