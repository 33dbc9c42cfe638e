//! The settings of the DAO core in their first form, without an address
//! under which the DAO describes itself.

use vstd::prelude::*;

verus! {

#[derive(Debug, PartialEq, Eq)]
pub struct Config {
    pub name: String,
    pub description: String,
    pub image_url: Option<String>,
    pub automatically_add_cw20s: bool,
    pub automatically_add_cw721s: bool,
}

} // verus!
