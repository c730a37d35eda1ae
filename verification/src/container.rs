//! A vertical stack of interface nodes and the geometry it emits: one quad,
//! four vertices and six indices, per call.

use vstd::prelude::*;
use crate::host::Size;

verus! {

/// Number of vertices of a quad.
pub const NUM_VERTICES: u16 = 4;

/// Number of indices of a quad: two triangles.
pub const NUM_INDICES: u32 = 6;

/// A column of nodes, laid out from the top with `margin` to the container's
/// edge and `separation` between neighbours. The container is generic in the
/// scalar `S` of its measures and in the node `N`: it stores them and never
/// computes with them.
pub struct VerticalContainerData<S, N> {
    pub margin: S,
    pub separation: S,
    pub children: Vec<N>,
}

impl<S, N> VerticalContainerData<S, N> {
    /// A container with the given measures and children.
    pub fn new(margin: S, separation: S, children: Vec<N>) -> (container: Self)
        ensures
            container.margin == margin,
            container.separation == separation,
            container.children == children,
    {
        VerticalContainerData { margin, separation, children }
    }

    /// Appends the quad `vertices_slice`, `indices_slice` to the two buffers
    /// and returns how many vertices and indices were appended. What the
    /// buffers held before stays in front, in place.
    pub fn ui_node_data_creation<V: Copy>(
        &self,
        size: &Size,
        vertices: &mut Vec<V>,
        vertices_slice: &[V; 4],
        indices: &mut Vec<u16>,
        indices_slice: &[u16; 6],
    ) -> (counts: (u16, u32))
        ensures
            final(vertices)@ == old(vertices)@ + vertices_slice@,
            final(indices)@ == old(indices)@ + indices_slice@,
            counts == (NUM_VERTICES, NUM_INDICES),
    {
        let mut v: usize = 0;
        while v < 4
            invariant
                v <= 4,
                vertices@ == old(vertices)@ + vertices_slice@.take(v as int),
            decreases 4 - v,
        {
            vertices.push(vertices_slice[v]);
            v = v + 1;
        }
        let mut i: usize = 0;
        while i < 6
            invariant
                i <= 6,
                indices@ == old(indices)@ + indices_slice@.take(i as int),
            decreases 6 - i,
        {
            indices.push(indices_slice[i]);
            i = i + 1;
        }
        (NUM_VERTICES, NUM_INDICES)
    }
}

} // verus!
