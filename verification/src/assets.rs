//! Where an asset is requested from: every asset lives under the `assets/`
//! folder, addressed relative to the page (in the browser) or to the
//! executable's directory (natively).
use vstd::prelude::*;
use vstd::string::StringExecFns;

verus! {

/// The request path of the asset at `relative_path` inside the asset folder:
/// `assets/` followed by `relative_path`.
pub fn asset_request_path(relative_path: &str) -> (path: String)
    ensures
        path@ == "assets/"@ + relative_path@,
{
    let mut path = String::from_str("assets/");
    path.append(relative_path);
    path
}

} // verus!
