//! Classification of hot-spring ("onsen") water quality.
//!
//! A spring's dissolved constituents, together with an optional
//! liquid-acidity reading, determine its standardized regulatory name.
//! This crate models the closed taxonomy of constituents, groups them
//! into an `OnsenQuality` aggregate, renders the canonical display name,
//! and encodes the ordered constituent list into a flat record of rank
//! columns (and back) so that the ordering survives a round trip through
//! a relational row.

pub mod api;
pub mod auth;
pub mod chemical;
pub mod controller;
pub mod codec;
pub mod entity;
pub mod quality;
pub mod roundtrip;
pub mod spring;
pub mod store;

use vstd::prelude::*;

verus! {

/// Compares two string slices by their character sequences.
pub(crate) fn eq_str(a: &str, b: &str) -> (r: bool)
    ensures
        r == (a@ == b@),
{
    let x = a.to_owned();
    let y = b.to_owned();
    x == y
}

} // verus!
