//! Messages of the radial preview canvas.

use vstd::prelude::*;

verus! {

/// What the radial canvas reports: the wedge under the pointer, if any.
#[derive(Debug, Clone, Copy, PartialEq, Eq, Structural)]
pub enum RadialCanvasMessage {
    Hover(Option<usize>),
}

} // verus!
