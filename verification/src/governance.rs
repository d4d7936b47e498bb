//! Upgrade governance shared by the betting and rewards contracts: three
//! governance admins, of which two distinct ones must approve an upgrade.

use vstd::prelude::*;
use crate::host::{AccountId, IdList, WasmHash, HOST_VEC_MAX_LEN, id_list_items, id_list_new, id_list_len, id_list_contains, id_list_push_back};
use crate::platform::PlatformError;

verus! {

/// Governance records of a contract.
pub struct Governance {
    pub platform_admin: Option<AccountId>,
    pub security_admin: Option<AccountId>,
    pub treasury_admin: Option<AccountId>,
    /// Governance admins that approved the pending upgrade, in order.
    pub upgrade_approvals: IdList,
    /// The WASM hash of the last approved upgrade.
    pub wasm_hash: Option<WasmHash>,
}

/// Number of distinct approvals that trigger an upgrade.
pub const UPGRADE_QUORUM: u32 = 2;

impl Governance {
    /// The approvals pending, as a sequence.
    pub open spec fn approvals(&self) -> Seq<AccountId> {
        id_list_items(self.upgrade_approvals)
    }

    /// Whether `who` is one of the three governance admins.
    pub open spec fn is_member(&self, who: AccountId) -> bool {
        ||| self.platform_admin == Some(who)
        ||| self.security_admin == Some(who)
        ||| self.treasury_admin == Some(who)
    }

    /// The error with which `upgrade` refuses `caller`, if any.
    pub open spec fn upgrade_error(&self, caller: AccountId) -> Option<PlatformError> {
        if self.platform_admin is None || self.security_admin is None
            || self.treasury_admin is None {
            Some(PlatformError::Unauthorized)
        } else if !self.is_member(caller) {
            Some(PlatformError::Unauthorized)
        } else if self.approvals().contains(caller) {
            Some(PlatformError::Unauthorized)
        } else {
            None
        }
    }

    /// Whether an accepted approval by `caller` completes the quorum.
    pub open spec fn upgrade_completes(&self, caller: AccountId) -> bool {
        self.approvals().push(caller).len() >= UPGRADE_QUORUM
    }

    /// The state after `upgrade` accepted the approval of `caller` for `hash`:
    /// on quorum the hash is recorded and the approvals start over,
    /// otherwise the approval is added.
    pub open spec fn upgrade_post(&self, next: &Governance, caller: AccountId, hash: WasmHash) -> bool {
        &&& next.platform_admin == self.platform_admin
        &&& next.security_admin == self.security_admin
        &&& next.treasury_admin == self.treasury_admin
        &&& if self.upgrade_completes(caller) {
            &&& next.approvals() == Seq::<AccountId>::empty()
            &&& next.wasm_hash == Some(hash)
        } else {
            &&& next.approvals() == self.approvals().push(caller)
            &&& next.wasm_hash == self.wasm_hash
        }
    }

    /// Governance with the three roles held by `admin` and no approvals.
    pub fn new_with_admin(env: &soroban_sdk::Env, admin: AccountId) -> (g: Governance)
        ensures
            g.platform_admin == Some(admin),
            g.security_admin == Some(admin),
            g.treasury_admin == Some(admin),
            g.approvals() == Seq::<AccountId>::empty(),
            g.wasm_hash is None,
    {
        Governance {
            platform_admin: Some(admin),
            security_admin: Some(admin),
            treasury_admin: Some(admin),
            upgrade_approvals: id_list_new(env),
            wasm_hash: None,
        }
    }

    /// Governance with no roles set.
    pub fn empty(env: &soroban_sdk::Env) -> (g: Governance)
        ensures
            g.platform_admin is None,
            g.security_admin is None,
            g.treasury_admin is None,
            g.approvals() == Seq::<AccountId>::empty(),
            g.wasm_hash is None,
    {
        Governance {
            platform_admin: None,
            security_admin: None,
            treasury_admin: None,
            upgrade_approvals: id_list_new(env),
            wasm_hash: None,
        }
    }

    /// Whether the approvals can take one more; the host refuses to grow a
    /// full vector.
    pub fn approvals_have_room(&self) -> (b: bool)
        ensures
            b == (self.approvals().len() < HOST_VEC_MAX_LEN),
    {
        id_list_len(&self.upgrade_approvals) < HOST_VEC_MAX_LEN
    }

    /// Records the approval of `caller` for upgrading to `hash`. Returns
    /// whether this approval completed the quorum, so that the contract's
    /// code is to be replaced by `hash`.
    pub fn upgrade(&mut self, env: &soroban_sdk::Env, caller: AccountId, hash: WasmHash) -> (r: Result<bool, PlatformError>)
        requires
            old(self).approvals().len() < HOST_VEC_MAX_LEN,
        ensures
            match r {
                Ok(done) => {
                    &&& old(self).upgrade_error(caller) is None
                    &&& done == old(self).upgrade_completes(caller)
                    &&& old(self).upgrade_post(final(self), caller, hash)
                },
                Err(e) => {
                    &&& old(self).upgrade_error(caller) == Some(e)
                    &&& *final(self) == *old(self)
                },
            },
    {
        let platform = match self.platform_admin {
            Some(a) => a,
            None => return Err(PlatformError::Unauthorized),
        };
        let security = match self.security_admin {
            Some(a) => a,
            None => return Err(PlatformError::Unauthorized),
        };
        let treasury = match self.treasury_admin {
            Some(a) => a,
            None => return Err(PlatformError::Unauthorized),
        };
        if caller != platform && caller != security && caller != treasury {
            return Err(PlatformError::Unauthorized);
        }
        if id_list_contains(&self.upgrade_approvals, caller) {
            return Err(PlatformError::Unauthorized);
        }
        id_list_push_back(&mut self.upgrade_approvals, caller);
        if id_list_len(&self.upgrade_approvals) >= UPGRADE_QUORUM {
            self.wasm_hash = Some(hash);
            self.upgrade_approvals = id_list_new(env);
            Ok(true)
        } else {
            Ok(false)
        }
    }
}

/// Whether the approvals are a possible record of an undecided upgrade:
/// fewer than the quorum, all by governance admins, none twice.
pub open spec fn approvals_sound(g: &Governance) -> bool {
    &&& g.approvals().len() < UPGRADE_QUORUM
    &&& forall|i: int| 0 <= i < g.approvals().len() ==> g.is_member(#[trigger] g.approvals()[i])
    &&& g.approvals().no_duplicates()
}

/// Every accepted approval keeps the approvals sound: an upgrade never
/// waits on more approvals than the quorum, and no admin approves twice.
pub proof fn lemma_upgrade_keeps_approvals_sound(g: Governance, next: Governance, caller: AccountId, hash: WasmHash)
    requires
        approvals_sound(&g),
        g.upgrade_error(caller) is None,
        g.upgrade_post(&next, caller, hash),
    ensures
        approvals_sound(&next),
{
    if !g.upgrade_completes(caller) {
        assert(g.approvals().len() == 0);
        assert(next.approvals() =~= seq![caller]);
        assert(next.approvals()[0] == caller);
    } else {
        assert(next.approvals().len() == 0);
    }
}

/// An upgrade needs two distinct governance admins: from no pending
/// approvals, the first accepted approval does not upgrade, the same admin
/// is refused the second time, and a different admin's approval upgrades.
pub proof fn lemma_upgrade_needs_two_admins(
    g0: Governance,
    g1: Governance,
    first: AccountId,
    second: AccountId,
    hash: WasmHash,
)
    requires
        g0.approvals().len() == 0,
        g0.upgrade_error(first) is None,
        g0.upgrade_post(&g1, first, hash),
    ensures
        !g0.upgrade_completes(first),
        g1.upgrade_error(first) == Some(PlatformError::Unauthorized),
        second != first && g0.is_member(second) ==> g1.upgrade_error(second) is None
            && g1.upgrade_completes(second),
{
    assert(g1.approvals() =~= seq![first]);
    assert(g1.approvals()[0] == first);
}

} // verus!
