//! What the library takes from the Soroban SDK: its vector type, as the list
//! that holds the guardians.
//!
//! An SDK vector is a handle to a sequence of values that the host keeps. The
//! sequence itself never changes: an operation that changes the vector has the
//! host make a new sequence and puts its handle into the vector. So a vector
//! behaves as a plain value, and a copy of it is independent of it.
//!
//! The contracts in this file are not proved. They say what the SDK and its host
//! do, as long as the host has the budget to do it.
use vstd::prelude::*;

verus! {

/// `soroban_sdk::Env`, the handle to a host. It is only handed on.
#[verifier::external_type_specification]
#[verifier::external_body]
pub struct ExEnv(soroban_sdk::Env);

/// `soroban_sdk::Vec`, of which nothing is known but what is said below.
#[verifier::external_type_specification]
#[verifier::external_body]
#[verifier::reject_recursive_types(T)]
pub struct ExVec<T>(soroban_sdk::Vec<T>);

/// The values that a list holds, in their order. The SDK does not make sure that
/// a value of a list is of the type of its items: one that is not is `None` here.
pub uninterp spec fn items(list: soroban_sdk::Vec<(u32, u128, u128)>) -> Seq<
    Option<(u32, u128, u128)>,
>;

/// `soroban_sdk::Vec::new`: a list without items, kept by the host of `env`.
#[verifier::external_body]
pub(crate) fn list_new(env: &soroban_sdk::Env) -> (list: soroban_sdk::Vec<(u32, u128, u128)>)
    ensures
        items(list) == Seq::<Option<(u32, u128, u128)>>::empty(),
{
    soroban_sdk::Vec::new(env)
}

/// `soroban_sdk::Vec::len`: the number of values.
#[verifier::external_body]
pub(crate) fn list_len(list: &soroban_sdk::Vec<(u32, u128, u128)>) -> (n: u32)
    ensures
        n == items(*list).len(),
{
    list.len()
}

/// `soroban_sdk::Vec::get`: the item at a position, `None` where there is no such
/// position. It fails on a value that is no item.
#[verifier::external_body]
pub(crate) fn list_get(list: &soroban_sdk::Vec<(u32, u128, u128)>, i: u32) -> (item: Option<
    (u32, u128, u128),
>)
    requires
        i < items(*list).len() ==> items(*list)[i as int] is Some,
    ensures
        item == (if i < items(*list).len() {
            items(*list)[i as int]
        } else {
            None
        }),
{
    list.get(i)
}

/// `soroban_sdk::Vec::contains`: whether an item is in the list. The host
/// compares values by what they hold.
#[verifier::external_body]
pub(crate) fn list_contains(
    list: &soroban_sdk::Vec<(u32, u128, u128)>,
    item: (u32, u128, u128),
) -> (found: bool)
    ensures
        found == items(*list).contains(Some(item)),
{
    list.contains(item)
}

/// `soroban_sdk::Vec::first_index_of`: where an item first occurs, `None` where
/// it does not occur. The host compares values by what they hold.
#[verifier::external_body]
pub(crate) fn list_first_index_of(
    list: &soroban_sdk::Vec<(u32, u128, u128)>,
    item: (u32, u128, u128),
) -> (index: Option<u32>)
    ensures
        match index {
            Some(i) => {
                &&& i < items(*list).len()
                &&& items(*list)[i as int] == Some(item)
                &&& forall|j: int| 0 <= j < i ==> items(*list)[j] != Some(item)
            },
            None => !items(*list).contains(Some(item)),
        },
{
    list.first_index_of(item)
}

/// `soroban_sdk::Vec::push_back`: the item becomes the last one. The host fails
/// where the list cannot get longer.
#[verifier::external_body]
pub(crate) fn list_push_back(list: &mut soroban_sdk::Vec<(u32, u128, u128)>, item: (u32, u128, u128))
    requires
        items(*old(list)).len() < u32::MAX,
    ensures
        items(*final(list)) == items(*old(list)).push(Some(item)),
{
    list.push_back(item)
}

/// `soroban_sdk::Vec::remove`: takes out the value at a position, the later ones
/// close up. `None`, and nothing taken out, where there is no such position.
#[verifier::external_body]
pub(crate) fn list_remove(list: &mut soroban_sdk::Vec<(u32, u128, u128)>, i: u32) -> (removed:
    Option<()>)
    ensures
        removed is Some <==> i < items(*old(list)).len(),
        items(*final(list)) == (if i < items(*old(list)).len() {
            items(*old(list)).remove(i as int)
        } else {
            items(*old(list))
        }),
{
    list.remove(i)
}

/// `soroban_sdk::Vec::clone`: a list of the same values.
#[verifier::external_body]
pub(crate) fn list_clone(list: &soroban_sdk::Vec<(u32, u128, u128)>) -> (copy: soroban_sdk::Vec<
    (u32, u128, u128),
>)
    ensures
        items(copy) == items(*list),
{
    list.clone()
}

} // verus!
