//! The fixed set of capability modules that the shell attaches to its host.
//!
//! Each capability stands for one external platform integration.  The shell
//! contributes no behaviour of its own to any of them; what it does decide —
//! and what is verified here — is exactly which capabilities are attached
//! and in which order.

use vstd::prelude::*;

verus! {

/// One external capability module that the host can carry.
#[derive(Clone, Copy, Debug, PartialEq, Eq, Structural)]
pub enum Capability {
    /// HTTP client capability.
    HttpClient,
    /// Persistent key-value store capability.
    Store,
    /// Native file and message dialog capability.
    Dialog,
    /// System notification capability.
    Notification,
    /// Deep-link URL handling capability.
    DeepLink,
    /// Window geometry persistence capability.
    WindowState,
    /// Self-update capability.
    Updater,
    /// Encrypted secret-vault capability.
    Stronghold,
}

/// The attachment order of the capability modules, fixed at compile time.
pub open spec fn spec_capability_list() -> Seq<Capability> {
    seq![
        Capability::HttpClient,
        Capability::Store,
        Capability::Dialog,
        Capability::Notification,
        Capability::DeepLink,
        Capability::WindowState,
        Capability::Updater,
        Capability::Stronghold,
    ]
}

/// Builds the list of capability modules to attach: exactly eight, in the
/// fixed order of `spec_capability_list`.
pub fn capability_list() -> (caps: Vec<Capability>)
    ensures
        caps@ == spec_capability_list(),
        caps@.len() == 8,
{
    let caps: Vec<Capability> = vec![
        Capability::HttpClient,
        Capability::Store,
        Capability::Dialog,
        Capability::Notification,
        Capability::DeepLink,
        Capability::WindowState,
        Capability::Updater,
        Capability::Stronghold,
    ];
    proof {
        assert(caps@ =~= spec_capability_list());
    }
    caps
}

} // verus!
