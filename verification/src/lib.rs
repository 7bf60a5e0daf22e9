use vstd::prelude::*;

pub mod bloom;
pub mod capabilities;
pub mod curiosity;
pub mod decimal;
pub mod feedback;
pub mod fuzz_rand;
pub mod fuzz_state;
pub mod generation;
pub mod grammar;
pub mod text;
pub mod uri;
pub mod json_rpc;
pub mod localize;
pub mod lsp_input;
pub mod matching;
pub mod message;
pub mod messages;
pub mod metamodel;
pub mod novelty;
pub mod range_selectors;
pub mod mutators;
pub mod plans;
pub mod selection;
pub mod session;
pub mod stages;

verus! {

} // verus!
