//! Permission domain of the Meson My Files app.

use vstd::prelude::*;

verus! {

/// Meson app permission domain for the platform catalog.
///
/// My Files list and preview are gated by the signed-in session; the domain
/// is registered for host inventory and future grants.
#[derive(Clone, Copy, Debug, PartialEq, Eq, Structural)]
pub enum MesonPermission {
    /// Reserved for future shared-file browse grants.
    FilesRead,
}

} // verus!
