use vstd::prelude::*;

verus! {

/// The module of the `string::semver::set` family of scripting functions:
/// `major`, `minor` and `patch`, each run by the shared semver runner.
pub struct Package;

} // verus!
