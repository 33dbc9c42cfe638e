//! What a DAO core and its modules say to one another: the request of a
//! proposal module to have messages run, and the description from which a
//! module is instantiated.

use cosmwasm_std::Binary;
use cosmwasm_std::Coin;
use cosmwasm_std::CosmosMsg;
use cosmwasm_std::Empty;
use crate::addr::Addr;
use vstd::prelude::*;

verus! {

/// Makes `cosmwasm_std::Binary`, an encoded message, known as a type of
/// which nothing is seen but that it is one.
#[verifier::external_type_specification]
#[verifier::external_body]
pub struct ExBinary(Binary);

/// Makes `cosmwasm_std::Coin` known in the same way.
#[verifier::external_type_specification]
#[verifier::external_body]
pub struct ExCoin(Coin);

/// The message that a proposal module sends to the core.
#[derive(Debug, PartialEq)]
pub enum ExecuteMsg {
    /// Has the core run all of the messages in order.
    ExecuteProposalHook { msgs: Vec<CosmosMsg<Empty>> },
}

/// Who is to administer a module once it is instantiated.
#[derive(Debug, PartialEq, Eq)]
pub enum Admin {
    /// The given address.
    Address { addr: String },
    /// Whoever instantiates the module.
    Instantiator {},
}

/// What it takes to instantiate a module.
#[derive(Debug, PartialEq)]
pub struct ModuleInstantiateInfo {
    /// The id of the code to instantiate.
    pub code_id: u64,
    /// The encoded message to instantiate it with.
    pub msg: Binary,
    /// Who is to administer the module, if anyone.
    pub admin: Option<Admin>,
    /// The label of the instance.
    pub label: String,
}

/// A request to the host's contract runtime.
#[derive(Debug, PartialEq)]
pub enum WasmMsg {
    /// Instantiates the code `code_id`.
    Instantiate {
        admin: Option<String>,
        code_id: u64,
        msg: Binary,
        funds: Vec<Coin>,
        label: String,
    },
}

/// The administrator of a module that `instantiator` instantiates.
pub open spec fn admin_address(admin: Option<Admin>, instantiator: Seq<char>) -> Option<
    Seq<char>,
> {
    match admin {
        Some(Admin::Address { addr }) => Some(addr@),
        Some(Admin::Instantiator {}) => Some(instantiator),
        None => None,
    }
}

/// The view of an optional string.
pub open spec fn optional_text(s: Option<String>) -> Option<Seq<char>> {
    match s {
        Some(s) => Some(s@),
        None => None,
    }
}

impl ModuleInstantiateInfo {
    /// The request that instantiates the module on behalf of
    /// `contract_address`. No funds go with it.
    pub fn into_wasm_msg(self, contract_address: Addr) -> (r: WasmMsg)
        ensures
            r matches WasmMsg::Instantiate { admin, code_id, msg, funds, label } && optional_text(
                admin,
            ) == admin_address(self.admin, contract_address@) && code_id == self.code_id && msg
                == self.msg && funds@.len() == 0 && label@ == self.label@,
    {
        let admin = match self.admin {
            Some(Admin::Address { addr }) => Some(addr),
            Some(Admin::Instantiator {}) => Some(contract_address.into_string()),
            None => None,
        };
        WasmMsg::Instantiate {
            admin,
            code_id: self.code_id,
            msg: self.msg,
            funds: Vec::new(),
            label: self.label,
        }
    }
}

} // verus!
