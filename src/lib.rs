//! Practice-tool core: note names and lessons, the note-matching tutor, the
//! sample window accumulator, the latest-wins mailbox and the integer layout
//! of the harmonic-product-spectrum analysis.

use vstd::prelude::*;

pub mod accumulator;
pub mod lesson;
pub mod mailbox;
pub mod note;
pub mod spectrum;
pub mod tutor;

verus! {

/// The contents of each vector of `ws`.
pub open spec fn views<T>(ws: Seq<Vec<T>>) -> Seq<Seq<T>> {
    ws.map_values(|w: Vec<T>| w@)
}

} // verus!
