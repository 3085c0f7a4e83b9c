//! Verified core of the SaaS Express graph runtime: graph topology and
//! lifecycle decisions, registries, operator message transformations,
//! configuration parsing and the small string utilities they rely on.

pub mod named;
pub mod status;
pub mod text;
pub mod meta;
pub mod channels;
pub mod graph_registry;
pub mod random;
pub mod graph;
pub mod json;
pub mod message;
pub mod timestamp;
pub mod operators;
pub mod configs;
pub mod claim_check;
pub mod settings;
pub mod ai_model;
pub mod ai_agent;
pub mod routing;
pub mod shell;
pub mod kube;
pub mod document;
pub mod widgets;
pub mod oidc;
pub mod admin;
pub mod bus;
pub mod ports;
pub mod reach;

use vstd::prelude::*;

verus! {

/// The sum of two numbers, which must fit in a `u64`.
pub fn add(left: u64, right: u64) -> (res: u64)
    requires
        left + right <= u64::MAX,
    ensures
        res == left + right,
{
    left + right
}

} // verus!
