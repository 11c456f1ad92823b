use vstd::prelude::*;

use crate::hub::NeighborhoodHub;
use crate::soulbound::SoulboundBadge;
use crate::types::{Identity, LedgerError};

verus! {

/// Installs new community instances on behalf of an authorized installer.
/// The actual code publication and on-host wiring belong to the surrounding
/// deployment collaborator; the factory decides whether an install may
/// proceed and produces the fresh instance pair.
pub struct HubFactory;

impl HubFactory {
    /// Produce a fresh, independent hub and badge-registry pair for
    /// `deployer`. `wasm_hash` is the opaque code reference the surrounding
    /// deployment collaborator installs; the core never reads it.
    ///
    /// `authorized` is the host's verdict on whether the caller proved it is
    /// `deployer`. Each successful call yields a new, distinct, still
    /// uninitialized instance — the deployer does not become admin, and the
    /// call is not idempotent: retrying after an ambiguous failure installs
    /// a second instance.
    pub fn deploy_hub(deployer: Identity, wasm_hash: Vec<u8>, authorized: bool) -> (res: Result<
        (NeighborhoodHub, SoulboundBadge),
        LedgerError,
    >)
        ensures
            !authorized ==> res is Err && res->Err_0 == LedgerError::Authorization,
            authorized ==> {
                &&& res is Ok
                &&& res->Ok_0.0.wf()
                &&& !res->Ok_0.0.is_active()
                &&& res->Ok_0.0.members().len() == 0
                &&& res->Ok_0.0.posts().len() == 0
                &&& res->Ok_0.0.polls().len() == 0
                &&& res->Ok_0.0.votes().len() == 0
                &&& res->Ok_0.1.wf()
                &&& res->Ok_0.1.badges().len() == 0
            },
    {
        let _ = deployer;
        let _ = wasm_hash;
        if !authorized {
            return Err(LedgerError::Authorization);
        }
        Ok((NeighborhoodHub::new(), SoulboundBadge::new()))
    }
}

} // verus!
