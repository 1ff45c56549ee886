use vstd::prelude::*;
use vstd::string::StringExecFns;

verus! {

/// The version of this package, as its manifest gives it; fixed when the
/// package is built.
pub const APP_VERSION: &'static str = "0.1.0";

/// The characters of the application version.
pub open spec fn app_version() -> Seq<char> {
    APP_VERSION@
}

/// Returns the application version: always the build's fixed version string.
pub fn get_app_version() -> (r: String)
    ensures
        r@ == app_version(),
        r@ == "0.1.0"@,
{
    String::from_str(APP_VERSION)
}

/// Any two results of `get_app_version` are the same string: the accessor
/// keeps no state, so calling it again gives what the first call gave.
pub proof fn lemma_version_stable(first: String, second: String)
    requires
        first@ == app_version(),
        second@ == app_version(),
    ensures
        first@ == second@,
{
}

} // verus!
