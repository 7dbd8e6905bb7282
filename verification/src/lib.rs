//! Rendering and input-routing core of a retained-mode GUI widget toolkit.
//!
//! The crate maintains a read-only snapshot of a widget graph, walks it in
//! depth order to decide what is drawn under which clip region, and routes a
//! captured stream of global input events to individual widgets with
//! coordinates made relative to each widget's rectangle.
//!
//! All geometry is kept in integer virtual coordinates; the translation of the
//! resulting draw schedule into backend draw calls lives outside the library.

use vstd::prelude::*;

pub mod clip;
pub mod draw;
pub mod graph;
pub mod primitives;
pub mod theme;
pub mod xy_pad;
pub mod events;
pub mod geom;
pub mod input;

verus! {

} // verus!
