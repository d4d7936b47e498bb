//! Verified models of the Renaissance Soroban contracts: football betting,
//! fan rewards, the stake vault, the results oracle and a small counter.
//!
//! Each contract is a state machine over the records that the on-chain
//! contract keeps in ledger storage. Every operation either fails with an
//! error and leaves the state untouched, or succeeds and changes the state as
//! its contract states. The token movements and events that the on-chain
//! contract performs are recorded in the state for the host shell to carry
//! out.

pub mod host;
pub mod platform;
pub mod governance;
pub mod counter;
pub mod player_nft;
pub mod betting;
pub mod betting_books;
pub mod rewards;
pub mod vault;
pub mod vault_locks;
pub mod oracle;
