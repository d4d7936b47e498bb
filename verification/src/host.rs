//! The Soroban SDK items that the contracts use in memory, with the
//! contracts that the library relies on.
//!
//! Ledger storage, authorization, the ledger clock, token calls and event
//! publication are the host shell's business; what stays here are the host
//! values that the contract logic carries or computes on: the environment
//! handle, host vectors of account ids and amounts, symbols and hashes.
//!
//! Every host call draws on the host's resource budget and aborts the
//! invocation when that runs out; the contracts below do not state this.

use vstd::prelude::*;

verus! {

#[verifier::external_type_specification]
#[verifier::external_body]
pub struct ExEnv(soroban_sdk::Env);

#[verifier::external_type_specification]
#[verifier::external_body]
#[verifier::reject_recursive_types(T)]
pub struct ExHostVec<T>(soroban_sdk::Vec<T>);

#[verifier::external_type_specification]
#[verifier::external_body]
pub struct ExSymbol(soroban_sdk::Symbol);

#[verifier::external_type_specification]
#[verifier::external_body]
pub struct ExBytesN<const N: usize>(soroban_sdk::BytesN<N>);

/// Identity of an account or contract. The contracts only compare
/// accounts for equality and key their records by them.
pub type AccountId = u64;

/// A host vector of account ids.
pub type IdList = soroban_sdk::Vec<u64>;

/// A host vector of token amounts.
pub type AmountList = soroban_sdk::Vec<i128>;

/// A 32-byte WASM hash, carried as the host value.
pub type WasmHash = soroban_sdk::BytesN<32>;

/// The items that a host vector of account ids holds, in order.
pub uninterp spec fn id_list_items(v: soroban_sdk::Vec<u64>) -> Seq<u64>;

/// The items that a host vector of amounts holds, in order.
pub uninterp spec fn amount_list_items(v: soroban_sdk::Vec<i128>) -> Seq<i128>;

/// Largest length of a host vector: the host refuses to grow a vector
/// that already holds this many items.
pub const HOST_VEC_MAX_LEN: u32 = 0xffff_ffffu32;

/// Calls `soroban_sdk::Vec::<u64>::new`, which creates an empty host vector.
#[verifier::external_body]
pub(crate) fn id_list_new(env: &soroban_sdk::Env) -> (v: IdList)
    ensures
        id_list_items(v) == Seq::<u64>::empty(),
{
    soroban_sdk::Vec::new(env)
}

/// Calls `soroban_sdk::Vec::<u64>::len`: the number of items.
#[verifier::external_body]
pub(crate) fn id_list_len(v: &IdList) -> (n: u32)
    ensures
        n as int == id_list_items(*v).len(),
{
    v.len()
}

/// Calls `soroban_sdk::Vec::<u64>::contains`: whether the item occurs.
#[verifier::external_body]
pub(crate) fn id_list_contains(v: &IdList, x: u64) -> (b: bool)
    ensures
        b == id_list_items(*v).contains(x),
{
    v.contains(x)
}

/// Calls `soroban_sdk::Vec::<u64>::push_back`: appends the item. The host
/// refuses (and the call panics) when the vector already holds
/// `u32::MAX` items, which `requires` leaves out.
#[verifier::external_body]
pub(crate) fn id_list_push_back(v: &mut IdList, x: u64)
    requires
        id_list_items(*old(v)).len() < HOST_VEC_MAX_LEN,
    ensures
        id_list_items(*final(v)) == id_list_items(*old(v)).push(x),
{
    v.push_back(x)
}

/// Calls `soroban_sdk::Vec::<u64>::clone`, which makes another handle to
/// the same host vector.
#[verifier::external_body]
pub(crate) fn id_list_clone(v: &IdList) -> (c: IdList)
    ensures
        id_list_items(c) == id_list_items(*v),
{
    v.clone()
}

/// Calls `soroban_sdk::Vec::<i128>::from_array` on three items.
#[verifier::external_body]
pub(crate) fn amount_list_from_array(env: &soroban_sdk::Env, items: [i128; 3]) -> (v: AmountList)
    ensures
        amount_list_items(v) == items@,
{
    soroban_sdk::Vec::from_array(env, items)
}

/// Calls `soroban_sdk::Vec::<i128>::len`: the number of items.
#[verifier::external_body]
pub(crate) fn amount_list_len(v: &AmountList) -> (n: u32)
    ensures
        n as int == amount_list_items(*v).len(),
{
    v.len()
}

/// Calls `soroban_sdk::Vec::<i128>::get`: the item at `i`, or `None` when
/// `i` is out of bounds.
#[verifier::external_body]
pub(crate) fn amount_list_get(v: &AmountList, i: u32) -> (r: Option<i128>)
    ensures
        r == (if (i as int) < amount_list_items(*v).len() {
            Some(amount_list_items(*v)[i as int])
        } else {
            None
        }),
{
    v.get(i)
}

/// Calls `soroban_sdk::Vec::<i128>::set`: replaces the item at `i`. The call
/// panics when `i` is out of bounds, which `requires` leaves out.
#[verifier::external_body]
pub(crate) fn amount_list_set(v: &mut AmountList, i: u32, x: i128)
    requires
        (i as int) < amount_list_items(*old(v)).len(),
    ensures
        amount_list_items(*final(v)) == amount_list_items(*old(v)).update(i as int, x),
{
    v.set(i, x)
}

/// Whether `text` may name a host symbol: at most 32 characters, each of
/// them `a-z`, `A-Z`, `0-9` or `_`.
pub open spec fn is_symbol_text(text: Seq<char>) -> bool {
    &&& text.len() <= 32
    &&& forall|i: int|
        0 <= i < text.len() ==> {
            let c = #[trigger] text[i];
            ('a' <= c && c <= 'z') || ('A' <= c && c <= 'Z') || ('0' <= c && c <= '9') || c == '_'
        }
}

/// The text of a host symbol: the characters it was made of. A symbol is an
/// immutable host value, so its text is fixed by the symbol itself.
pub uninterp spec fn symbol_text(s: soroban_sdk::Symbol) -> Seq<char>;

/// Calls `soroban_sdk::Symbol::new`, which makes a host symbol whose text is
/// `text`. The call panics on text that no symbol can hold, which `requires`
/// leaves out.
#[verifier::external_body]
pub(crate) fn symbol_new(env: &soroban_sdk::Env, text: &str) -> (s: soroban_sdk::Symbol)
    requires
        is_symbol_text(text@),
    ensures
        symbol_text(s) == text@,
{
    soroban_sdk::Symbol::new(env, text)
}

} // verus!
