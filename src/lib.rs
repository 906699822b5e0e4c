//! The decisions and data of a window that draws one colored triangle with
//! two lines of text over it: the surface configuration that follows the
//! window's size, what each window event and each failed frame calls for,
//! and the vertex data with its buffer layout.
use vstd::prelude::*;

pub mod state;
pub mod vertex;
