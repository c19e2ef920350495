//! Small world resources shared by the per-tick systems.

use crate::mat::Vec4;
use vstd::prelude::*;

verus! {

/// The cooperative shutdown flag, checked once per loop iteration.
#[derive(Clone, Copy, PartialEq, Eq, Structural, Debug)]
pub struct ExitResource(pub bool);

/// The light position handed to the shaders, in fixed point.
#[derive(Clone, Copy, PartialEq, Eq, Structural, Debug)]
pub struct SunResource(pub Vec4);

} // verus!
