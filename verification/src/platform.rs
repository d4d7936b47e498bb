//! Types that all the contracts share: the platform error catalogue and the
//! match descriptor.

use vstd::prelude::*;
use crate::host::AccountId;

verus! {

/// Platform error codes shared by the child contracts.
#[derive(Copy, Clone, Debug, PartialEq, Eq, PartialOrd, Ord, Structural)]
pub enum PlatformError {
    InternalError,
    Unauthorized,
    InvalidAmount,
    ExpiredDeadline,
    Overflow,
    /// The caller holds fewer tokens than the requested debit.
    InsufficientBalance,
    Paused,
}

impl PlatformError {
    /// The numeric code under which the error crosses the contract boundary.
    pub open spec fn spec_code(self) -> u32 {
        match self {
            PlatformError::InternalError => 1,
            PlatformError::Unauthorized => 2,
            PlatformError::InvalidAmount => 3,
            PlatformError::ExpiredDeadline => 4,
            PlatformError::Overflow => 5,
            PlatformError::InsufficientBalance => 6,
            PlatformError::Paused => 7,
        }
    }

    /// The numeric code of the error.
    pub fn code(&self) -> (c: u32)
        ensures
            c == self.spec_code(),
    {
        match self {
            PlatformError::InternalError => 1,
            PlatformError::Unauthorized => 2,
            PlatformError::InvalidAmount => 3,
            PlatformError::ExpiredDeadline => 4,
            PlatformError::Overflow => 5,
            PlatformError::InsufficientBalance => 6,
            PlatformError::Paused => 7,
        }
    }
}

/// A token movement that a contract makes: `amount` of `token` from
/// `from` to `to`.
#[derive(Clone, Copy, Debug, PartialEq, Eq, Structural)]
pub struct TokenTransfer {
    pub token: AccountId,
    pub from: AccountId,
    pub to: AccountId,
    pub amount: i128,
}

/// Standardized tracking data of an interactive betting match.
#[derive(Copy, Clone, Debug, PartialEq, Eq, Structural)]
pub struct MatchMetadata {
    pub match_id: u64,
    pub player_one: AccountId,
    pub player_two: AccountId,
    pub asset_token: AccountId,
    pub total_pool: i128,
}

} // verus!

verus! {

/// Makes the host symbol that names an event topic: its text is `topic`.
pub fn get_event_topic_by_string(env: &soroban_sdk::Env, topic: &str) -> (s: soroban_sdk::Symbol)
    requires
        crate::host::is_symbol_text(topic@),
    ensures
        crate::host::symbol_text(s) == topic@,
{
    crate::host::symbol_new(env, topic)
}

} // verus!
