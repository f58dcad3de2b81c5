//! Windows ISO debloating: the decisions, file lists, registry scripts and
//! answer file behind a debloated Windows installation image.
use vstd::prelude::*;

pub mod text;
pub mod num;
pub mod helpers;
pub mod fixes;

verus! {
} // verus!
