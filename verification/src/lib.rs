//! A terminal radio: stations on a globe, tuned by keys, narrowed by filters, loaded
//! from a public directory and verified before they are shown.
use vstd::prelude::*;

pub mod app;
pub mod cli;
pub mod continent;
pub mod directory;
pub mod effects;
pub mod fetch;
pub mod filter;
pub mod globe;
pub mod keys;
pub mod laws;
pub mod layout;
pub mod listings;
pub mod live;
pub mod menus;
pub mod model;
pub mod player;
pub mod probe;
pub mod random;
pub mod ranking;
pub mod runs;
pub mod station;
pub mod text;
pub mod view;

verus! {

} // verus!
