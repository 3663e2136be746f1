//! Sandboxed compilation pipeline for a hardware-description-language
//! playground: a request body carrying source text is decoded, the
//! compilation entry point is resolved from the text, a resource-limited
//! container invocation is assembled, and the captured compiler output is
//! returned as a JSON envelope.

use vstd::prelude::*;

pub mod decode;
pub mod errors;
pub mod machine;
pub mod output;
pub mod resolver;
pub mod sandbox;
pub mod text;
pub mod wire;

verus! {

} // verus!
