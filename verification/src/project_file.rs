use vstd::prelude::*;

verus! {

/// Version written to, and required of, the `version` field of a project
/// file.
pub const PROJECT_FORMAT_VERSION: &'static str = "1.0";

/// A project file declaring `version` can be read: its version is exactly
/// `PROJECT_FORMAT_VERSION`.
pub fn project_version_supported(version: &String) -> (ok: bool)
    ensures
        ok == (version@ == PROJECT_FORMAT_VERSION@),
{
    let expected = PROJECT_FORMAT_VERSION.to_owned();
    *version == expected
}

} // verus!
