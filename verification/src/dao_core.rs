//! The records of the DAO core.

use crate::addr::Addr;
use vstd::prelude::*;

verus! {

/// The settings of the core.
#[derive(Debug, PartialEq, Eq)]
pub struct Config {
    /// The name of the DAO.
    pub name: String,
    /// A description of the DAO.
    pub description: String,
    /// The address of an image to show with the DAO.
    pub image_url: Option<String>,
    /// Whether fungible tokens that the DAO receives are added to its
    /// treasury by themselves.
    pub automatically_add_cw20s: bool,
    /// Whether non-fungible tokens that the DAO receives are added to its
    /// treasury by themselves.
    pub automatically_add_cw721s: bool,
    /// The address under which the DAO describes itself.
    pub dao_uri: Option<String>,
}

/// Whether a proposal module is in use.
#[derive(Clone, Copy, Debug, PartialEq, Eq, Structural)]
pub enum ProposalModuleStatus {
    Enabled,
    Disabled,
}

/// A proposal module of the DAO.
#[derive(Debug, PartialEq, Eq)]
pub struct ProposalModule {
    /// The address of the module.
    pub address: Addr,
    /// The prefix of the module's proposals, made of letters: the first
    /// module has `A`.
    pub prefix: String,
    pub status: ProposalModuleStatus,
}

} // verus!
