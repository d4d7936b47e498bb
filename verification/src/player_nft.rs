//! The player NFT contract boundary: for now it only names itself.

use vstd::prelude::*;

verus! {

/// The player NFT contract.
pub struct PlayerNftContract;

impl PlayerNftContract {
    /// The text of the contract's name symbol.
    pub fn contract_name_text() -> (name: &'static str)
        ensures
            name@ == "player_nft"@,
            crate::host::is_symbol_text(name@),
    {
        proof {
            reveal_strlit("player_nft");
        }
        "player_nft"
    }

    /// The contract's name, as a host symbol: its text is `player_nft`.
    pub fn contract_name(env: &soroban_sdk::Env) -> (s: soroban_sdk::Symbol)
        ensures
            crate::host::symbol_text(s) == "player_nft"@,
    {
        let name = Self::contract_name_text();
        crate::host::symbol_new(env, name)
    }
}

} // verus!
