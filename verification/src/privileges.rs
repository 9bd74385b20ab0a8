use vstd::prelude::*;

use crate::errors::AppError;

verus! {

/// Relies on nix's `Uid::effective` / `Uid::is_root`: whether the process
/// runs with the effective user id of root.  That depends on the
/// environment, so nothing more is promised of the result.
#[verifier::external_body]
fn effective_uid_is_root() -> (r: bool) {
    nix::unistd::Uid::effective().is_root()
}

/// The privilege rule: without root, running `program` is refused with
/// `RootPrivilegesRequired` naming it.
pub fn root_requirement(is_root: bool, program: &str) -> (r: Result<(), AppError>)
    ensures
        is_root <==> r is Ok,
        !is_root ==> (r matches Err(e) && e matches AppError::RootPrivilegesRequired(n) && n@
            == program@),
{
    if is_root {
        Ok(())
    } else {
        Err(AppError::RootPrivilegesRequired(program.to_owned()))
    }
}

/// Check that the process runs as root; the only possible failure is
/// `RootPrivilegesRequired`, naming the program.
pub fn require_root(program: &str) -> (r: Result<(), AppError>)
    ensures
        r matches Err(e) ==> (e matches AppError::RootPrivilegesRequired(n) && n@ == program@),
{
    root_requirement(effective_uid_is_root(), program)
}

} // verus!
