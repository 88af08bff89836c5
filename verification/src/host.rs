//! What this library takes from `soroban_sdk`: host strings and host vectors.
//!
//! A host string or vector is a handle to an immutable object of the contract host;
//! an update makes a new object and moves the handle to it. So what a handle holds is
//! a function of its value. Nothing here speaks of metering: a host whose budget is
//! used up traps in any of these calls, as it does in any other computation.

use vstd::prelude::*;

verus! {

#[verifier::external_type_specification]
#[verifier::external_body]
pub struct ExHostEnv(soroban_sdk::Env);

#[verifier::external_type_specification]
#[verifier::external_body]
pub struct ExHostString(soroban_sdk::String);

#[verifier::external_type_specification]
#[verifier::external_body]
#[verifier::reject_recursive_types(T)]
pub struct ExHostVec<T>(soroban_sdk::Vec<T>);

/// The bytes of a host string, which need not be text in any encoding.
pub uninterp spec fn text_bytes(s: soroban_sdk::String) -> Seq<u8>;

/// The items of a host vector, in order. A host vector does not check its items when
/// it is made from foreign data: an item that is no such tuple is `None` here.
pub uninterp spec fn vec_items(v: soroban_sdk::Vec<(bool, u128, u128)>) -> Seq<
    Option<(bool, u128, u128)>,
>;

/// `soroban_sdk::String::clone` hands out another handle to the same host object.
pub assume_specification[ <soroban_sdk::String as Clone>::clone ](
    s: &soroban_sdk::String,
) -> (r: soroban_sdk::String)
    ensures
        r == *s,
;

/// `soroban_sdk::String::len`: the number of bytes in the string.
#[verifier::external_body]
pub(crate) fn text_len(s: &soroban_sdk::String) -> (r: u32)
    ensures
        r == text_bytes(*s).len(),
{
    s.len()
}

/// `soroban_sdk::String::copy_into_slice`, into a buffer of the string's length: the
/// bytes of the string.
#[verifier::external_body]
pub(crate) fn text_to_vec(s: &soroban_sdk::String) -> (r: Vec<u8>)
    ensures
        r@ == text_bytes(*s),
{
    let mut bytes = vec![0u8; s.len() as usize];
    s.copy_into_slice(&mut bytes);
    bytes
}

/// `soroban_sdk::Vec::new`: a vector without items.
#[verifier::external_body]
pub(crate) fn vec_new(env: &soroban_sdk::Env) -> (r: soroban_sdk::Vec<(bool, u128, u128)>)
    ensures
        vec_items(r) == Seq::<Option<(bool, u128, u128)>>::empty(),
{
    soroban_sdk::Vec::new(env)
}

/// `soroban_sdk::Vec::env`: the host that the vector lives in. Of a host nothing is
/// claimed.
#[verifier::external_body]
pub(crate) fn vec_env(v: &soroban_sdk::Vec<(bool, u128, u128)>) -> (r: &soroban_sdk::Env) {
    v.env()
}

/// `soroban_sdk::Vec::clone` hands out another handle to the same host object.
#[verifier::external_body]
pub(crate) fn vec_clone(v: &soroban_sdk::Vec<(bool, u128, u128)>) -> (r: soroban_sdk::Vec<
    (bool, u128, u128),
>)
    ensures
        r == *v,
{
    v.clone()
}

/// `soroban_sdk::Vec::len`: the number of items. The host refuses to count more than
/// `u32::MAX` of them.
#[verifier::external_body]
pub(crate) fn vec_len(v: &soroban_sdk::Vec<(bool, u128, u128)>) -> (r: u32)
    requires
        vec_items(*v).len() <= u32::MAX,
    ensures
        r == vec_items(*v).len(),
{
    v.len()
}

/// `soroban_sdk::Vec::get_unchecked`: the item at position `i`. It panics where there
/// is none, or where the item is no such tuple.
#[verifier::external_body]
pub(crate) fn vec_get(v: &soroban_sdk::Vec<(bool, u128, u128)>, i: u32) -> (r: (
    bool,
    u128,
    u128,
))
    requires
        i < vec_items(*v).len() <= u32::MAX,
        vec_items(*v)[i as int] is Some,
    ensures
        vec_items(*v)[i as int] == Some(r),
{
    v.get_unchecked(i)
}

/// `soroban_sdk::Vec::push_back`: `x` goes behind the items that are there.
#[verifier::external_body]
pub(crate) fn vec_push_back(v: &mut soroban_sdk::Vec<(bool, u128, u128)>, x: (bool, u128, u128))
    requires
        vec_items(*old(v)).len() < u32::MAX,
    ensures
        vec_items(*final(v)) == vec_items(*old(v)).push(Some(x)),
{
    v.push_back(x)
}

} // verus!
