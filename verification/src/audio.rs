//! Microphone bookkeeping: the device list shown in diagnostics and the
//! sample formats a capture stream accepts.

use vstd::prelude::*;
use vstd::string::StringExecFns;

verus! {

/// Sample rate whisper expects.
pub const TARGET_SAMPLE_RATE: u32 = 16_000;

/// What the device list says about one input device.
pub open spec fn device_line_spec(
    name: Option<Seq<char>>,
    default_name: Seq<char>,
    config: Result<Seq<char>, Seq<char>>,
) -> Seq<char> {
    let shown = match name {
        Some(n) => n,
        None => "<unknown>"@,
    };
    let marker = if shown == default_name {
        " [default]"@
    } else {
        ""@
    };
    let cfg = match config {
        Ok(c) => c,
        Err(e) => "config error: "@ + e,
    };
    shown + marker + " — "@ + cfg
}

/// One line of the device list: the device's name (or "<unknown>"), a marker
/// on the default device, and its default configuration or why it has none.
pub fn device_line(name: Option<String>, default_name: &str, config: Result<String, String>) -> (r:
    String)
    ensures
        r@ == device_line_spec(
            match name {
                Some(n) => Some(n@),
                None => None,
            },
            default_name@,
            match config {
                Ok(c) => Ok(c@),
                Err(e) => Err(e@),
            },
        ),
{
    let shown = match name {
        Some(n) => n,
        None => "<unknown>".to_owned(),
    };
    let is_default = shown == default_name.to_owned();
    let ghost shown_view = shown@;
    let mut line = shown;
    if is_default {
        line.append(" [default]");
    } else {
        proof { reveal_strlit(""); }
        assert(line@ =~= shown_view + ""@);
    }
    line.append(" — ");
    match config {
        Ok(c) => line.append(c.as_str()),
        Err(e) => {
            line.append("config error: ");
            line.append(e.as_str());
        },
    }
    line
}

/// The device list's line when the devices could not be listed.
pub fn device_list_error(message: &str) -> (r: String)
    ensures
        r@ == "input_devices() error: "@ + message@,
{
    let mut line = "input_devices() error: ".to_owned();
    line.append(message);
    line
}

/// Completes the device list: an empty list says that there are no input devices.
pub fn finish_device_list(lines: &mut Vec<String>)
    ensures
        old(lines)@.len() > 0 ==> final(lines)@ == old(lines)@,
        old(lines)@.len() == 0 ==> final(lines)@.len() == 1 && final(lines)@[0]@
            == "<no input devices>"@,
{
    if lines.len() == 0 {
        lines.push("<no input devices>".to_owned());
    }
}

/// Sample format of a capture stream.
#[derive(Clone, Copy, Debug, PartialEq, Eq)]
pub enum SampleKind {
    F32,
    I16,
    U16,
    /// A format the recorder does not convert.
    Unsupported,
}

/// Whether a stream of this format can be recorded.
pub fn capture_supported(kind: SampleKind) -> (r: bool)
    ensures
        r == !(kind is Unsupported),
{
    match kind {
        SampleKind::Unsupported => false,
        _ => true,
    }
}

} // verus!
