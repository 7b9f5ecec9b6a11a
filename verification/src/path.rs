use vstd::prelude::*;
use vstd::string::{StrSliceExecFns, StringExecFns};
use crate::states::GatewayState;

verus! {

/// Raw concatenation `dir + '/' + name`, the form used both for file
/// targets and for relative directory expressions.
pub open spec fn join_spec(dir: Seq<char>, name: Seq<char>) -> Seq<char> {
    dir + "/"@ + name
}

/// An expression beginning with the path separator stands on its own.
pub open spec fn is_absolute(expr: Seq<char>) -> bool {
    expr.len() > 0 && expr[0] == '/'
}

/// A path expression against a working directory: kept as is when
/// absolute, otherwise joined onto the working directory.
pub open spec fn resolve_spec(dir: Seq<char>, expr: Seq<char>) -> Seq<char> {
    if is_absolute(expr) {
        expr
    } else {
        join_spec(dir, expr)
    }
}

pub open spec fn cd_success_msg(canonical: Seq<char>) -> Seq<char> {
    "current path changed: "@ + canonical
}

pub open spec fn cd_missing_msg(attempted: Seq<char>) -> Seq<char> {
    "path not exists: "@ + attempted
}

/// What the caller's filesystem probe of an attempted directory found:
/// the canonical absolute form of an existing path, or nothing there.
pub enum PathProbe {
    Canonical(String),
    Missing,
}

pub fn join_path(dir: &str, name: &str) -> (r: String)
    ensures
        r@ == join_spec(dir@, name@),
{
    let mut r = String::from_str(dir);
    r.append("/");
    r.append(name);
    r
}

pub fn resolve(dir: &str, expr: &str) -> (r: String)
    ensures
        r@ == resolve_spec(dir@, expr@),
{
    let n = expr.unicode_len();
    if n > 0 && expr.get_char(0) == '/' {
        String::from_str(expr)
    } else {
        join_path(dir, expr)
    }
}

impl GatewayState {
    /// `changeDirectory`, after the caller probed the attempted path:
    /// an existing directory's canonical form is stored and echoed; a
    /// missing one leaves the stored directory unchanged and reports
    /// the attempted path.
    pub fn apply_change_directory(&mut self, attempted: &str, probe: PathProbe) -> (reply: String)
        requires
            old(self).wf(),
            old(self).spec_owner() is Some,
        ensures
            final(self).wf(),
            final(self).spec_token() == old(self).spec_token(),
            final(self).spec_owner() == old(self).spec_owner(),
            match probe {
                PathProbe::Canonical(c) => final(self).spec_current_path() == Some(c@)
                    && reply@ == cd_success_msg(c@),
                PathProbe::Missing => final(self).spec_current_path()
                    == old(self).spec_current_path() && reply@ == cd_missing_msg(attempted@),
            },
    {
        match probe {
            PathProbe::Canonical(c) => {
                let mut reply = String::from_str("current path changed: ");
                reply.append(c.as_str());
                self.update_current_path(c);
                reply
            },
            PathProbe::Missing => {
                let mut reply = String::from_str("path not exists: ");
                reply.append(attempted);
                reply
            },
        }
    }
}

} // verus!
