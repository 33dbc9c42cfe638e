//! The host's message type. A proposal carries messages for the DAO to run;
//! this library never looks inside one.

use cosmwasm_std::CosmosMsg;
use cosmwasm_std::Empty;
use vstd::prelude::*;

verus! {

/// Makes `cosmwasm_std::CosmosMsg` known as a type of which nothing is
/// seen but that it is one.
#[verifier::external_type_specification]
#[verifier::external_body]
#[verifier::reject_recursive_types(T)]
pub struct ExCosmosMsg<T>(CosmosMsg<T>);

/// Makes `cosmwasm_std::Empty`, the custom message of a chain that has
/// none, known in the same way.
#[verifier::external_type_specification]
#[verifier::external_body]
pub struct ExEmpty(Empty);

/// Calls `Clone::clone` as `cosmwasm_std::CosmosMsg` derives it. Trusted: the
/// copy is the same message.
#[verifier::external_body]
fn clone_msg(m: &CosmosMsg<Empty>) -> (r: CosmosMsg<Empty>)
    ensures
        r == *m,
{
    m.clone()
}

/// A copy of a list of messages.
pub fn clone_msgs(v: &Vec<CosmosMsg<Empty>>) -> (r: Vec<CosmosMsg<Empty>>)
    ensures
        r@ == v@,
{
    let mut out: Vec<CosmosMsg<Empty>> = Vec::new();
    let mut i: usize = 0;
    while i < v.len()
        invariant
            i <= v.len(),
            out@ == v@.subrange(0, i as int),
        decreases v.len() - i,
    {
        out.push(clone_msg(&v[i]));
        i = i + 1;
    }
    assert(v@.subrange(0, v.len() as int) =~= v@);
    out
}

/// The messages of an optional list.
pub open spec fn msgs_view(m: Option<Vec<CosmosMsg<Empty>>>) -> Option<Seq<CosmosMsg<Empty>>> {
    match m {
        Some(v) => Some(v@),
        None => None,
    }
}

/// A copy of an optional list of messages.
pub fn clone_optional_msgs(m: &Option<Vec<CosmosMsg<Empty>>>) -> (r: Option<
    Vec<CosmosMsg<Empty>>,
>)
    ensures
        msgs_view(r) == msgs_view(*m),
{
    match m {
        Some(v) => Some(clone_msgs(v)),
        None => None,
    }
}

} // verus!
