use vstd::prelude::*;
use vstd::string::StringExecFns;

verus! {

/// The visually distinct marker every warning to the owner is wrapped
/// in, on both sides.
pub open spec fn warning_marker() -> Seq<char> {
    "❗️❗️❗️"@
}

/// A warning as the owner sees it: the message between two markers.
pub open spec fn warning_wrap(msg: Seq<char>) -> Seq<char> {
    warning_marker() + msg + warning_marker()
}

/// Formats a warning for delivery to the owner's session. Delivery
/// itself is best-effort and owned by the transport around this crate.
pub fn format_warning(msg: &str) -> (r: String)
    ensures
        r@ == warning_wrap(msg@),
{
    let mut r = String::from_str("❗️❗️❗️");
    r.append(msg);
    r.append("❗️❗️❗️");
    r
}

/// A wrapped warning always strictly contains its message: the marker
/// is not empty, so an impostor's presence is never reported as a bare
/// echo of the message.
pub proof fn lemma_warning_wrap_grows(msg: Seq<char>)
    ensures
        warning_wrap(msg).len() > msg.len(),
{
    reveal_strlit("❗️❗️❗️");
}

} // verus!
