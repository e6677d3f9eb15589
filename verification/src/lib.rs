use vstd::prelude::*;

pub mod catalog;
pub mod errors;
pub mod orchestrator;
pub mod resolver;
pub mod target;

use crate::errors::InstallError;

verus! {

/// The fixed fallback runtime version used when the caller supplies none.
pub fn default_version() -> (r: String)
    ensures
        r@ == "10.15.1"@,
{
    String::from_str("10.15.1")
}

/// The fixed fallback destination directory used when the caller supplies
/// none.
pub fn default_asset_dir() -> (r: String)
    ensures
        r@ == "assets"@,
{
    String::from_str("assets")
}

/// The runtime this installer provisions. The lifecycle entry points are
/// invoked by the host tool in a fixed order, and the sequence halts on the
/// first failure.
pub struct NodeJs;

impl NodeJs {
    /// The idempotency check run before any network or filesystem work.
    /// This implementation never finds on-disk evidence of an earlier
    /// install and so always reports that setup is still needed.
    pub fn already_setup() -> (r: Result<bool, InstallError>)
        ensures
            r matches Ok(b) && b == false,
    {
        Ok(false)
    }

    /// The install step proper; all work happens during preparation, so
    /// this always succeeds.
    pub fn install() -> (r: Result<(), InstallError>)
        ensures
            r is Ok,
    {
        Ok(())
    }

    /// The post-install step; nothing is left to do, so this always
    /// succeeds.
    pub fn post_install() -> (r: Result<(), InstallError>)
        ensures
            r is Ok,
    {
        Ok(())
    }

    /// The uninstall step; nothing is removed, so this always succeeds.
    pub fn uninstall() -> (r: Result<(), InstallError>)
        ensures
            r is Ok,
    {
        Ok(())
    }
}

} // verus!
