//! Microphone permission: what the recorder does for each authorization
//! status the system reports (0 not determined, 1 restricted, 2 denied,
//! 3 authorized).

use vstd::prelude::*;

verus! {

/// What to do about microphone access.
#[derive(Clone, Copy, Debug, PartialEq, Eq)]
pub enum MicAccess {
    /// Go ahead and open the microphone.
    Granted,
    /// Access is refused.
    Denied,
    /// Ask the user once, and wait for the answer.
    Ask,
}

pub open spec fn spec_mic_access(status: isize) -> MicAccess {
    if status == 1 || status == 2 {
        MicAccess::Denied
    } else if status == 0 {
        MicAccess::Ask
    } else {
        MicAccess::Granted
    }
}

/// The decision for an authorization status. Authorized, and any status the
/// system is not known to report, go ahead; restricted and denied are refused;
/// not determined asks the user.
pub fn mic_access_for_status(status: isize) -> (r: MicAccess)
    ensures
        r == spec_mic_access(status),
{
    if status == 1 || status == 2 {
        MicAccess::Denied
    } else if status == 0 {
        MicAccess::Ask
    } else {
        MicAccess::Granted
    }
}

pub open spec fn denied_message() -> Seq<char> {
    "microphone access denied — open System Settings → Privacy & Security → Microphone"@
}

/// Makes sure the microphone may be used. `request_access` asks the user and
/// returns the answer; it is called only when the status is not determined.
pub fn ensure_mic_authorized<F: FnOnce() -> bool>(status: isize, request_access: F) -> (r: Result<(), String>)
    requires
        status == 0 ==> call_requires(request_access, ()),
    ensures
        spec_mic_access(status) == MicAccess::Granted ==> r is Ok,
        spec_mic_access(status) == MicAccess::Denied ==> (r matches Err(e) && e@ == denied_message()),
        spec_mic_access(status) == MicAccess::Ask ==> (r is Ok ==> call_ensures(request_access, (), true)),
        spec_mic_access(status) == MicAccess::Ask ==> (r is Err ==> call_ensures(request_access, (), false)
            && r->Err_0@ == denied_message()),
{
    match mic_access_for_status(status) {
        MicAccess::Granted => Ok(()),
        MicAccess::Denied => Err(denied_text()),
        MicAccess::Ask => {
            let granted = request_access();
            if granted {
                Ok(())
            } else {
                Err(denied_text())
            }
        },
    }
}

fn denied_text() -> (r: String)
    ensures
        r@ == denied_message(),
{
    "microphone access denied — open System Settings → Privacy & Security → Microphone".to_owned()
}


/// Restricted (1) and denied (2) are refused, not determined (0) asks the
/// user, and every other status, authorized (3) among them, goes ahead.
pub proof fn lemma_mic_statuses(status: isize)
    ensures
        (status == 1 || status == 2) <==> spec_mic_access(status) == MicAccess::Denied,
        status == 0 <==> spec_mic_access(status) == MicAccess::Ask,
        spec_mic_access(3) == MicAccess::Granted,
{
}

} // verus!
