//! The geometry catalog: two built-in shapes, each a vertex list plus a
//! triangle-list index list over it. The float vertex records themselves live
//! with the caller that owns the GPU buffers; the catalog fixes how many
//! vertices each shape has and exactly which indices are drawn.

use vstd::prelude::*;

verus! {

/// The two drawable shapes. A session starts on `Pentagon` and a primary
/// mouse press toggles to the other shape.
#[derive(Clone, Copy, Debug, PartialEq, Eq, Structural)]
pub enum Shape {
    Pentagon,
    Alternate,
}

impl Shape {
    /// The target of one shape-swap transition.
    pub open spec fn spec_toggle(self) -> Shape {
        match self {
            Shape::Pentagon => Shape::Alternate,
            Shape::Alternate => Shape::Pentagon,
        }
    }

    pub fn toggle(self) -> (r: Shape)
        ensures
            r == self.spec_toggle(),
    {
        match self {
            Shape::Pentagon => Shape::Alternate,
            Shape::Alternate => Shape::Pentagon,
        }
    }
}

/// Law: the shape swap is an involution, so any even number of
/// primary-button transitions returns the session to the shape it started on.
pub proof fn lemma_toggle_twice(s: Shape)
    ensures
        s.spec_toggle().spec_toggle() == s,
{
}

/// How many vertex records the shape's vertex list holds.
pub open spec fn spec_vertex_count(s: Shape) -> u32 {
    match s {
        Shape::Pentagon => 5,
        Shape::Alternate => 7,
    }
}

pub fn vertex_count(s: Shape) -> (n: u32)
    ensures
        n == spec_vertex_count(s),
{
    match s {
        Shape::Pentagon => 5,
        Shape::Alternate => 7,
    }
}

/// The shape's index list: triangle-list indices into its vertex list.
pub open spec fn spec_indices(s: Shape) -> Seq<u16> {
    match s {
        Shape::Pentagon => seq![0u16, 1, 4, 1, 2, 4, 2, 3, 4],
        Shape::Alternate => seq![0u16, 6, 1, 6, 5, 4, 4, 5, 3, 4, 3, 1, 1, 3, 2],
    }
}

/// Law: the catalog is well formed. The pentagon is drawn with 9 indices,
/// the alternate shape with 15, and every index refers to a vertex that the
/// shape's vertex list actually holds.
pub proof fn lemma_catalog_wf(s: Shape)
    ensures
        spec_indices(Shape::Pentagon).len() == 9,
        spec_indices(Shape::Alternate).len() == 15,
        forall|i: int|
            0 <= i < spec_indices(s).len() ==> spec_indices(s)[i] < spec_vertex_count(s),
{
    assert forall|i: int| 0 <= i < spec_indices(s).len() implies spec_indices(
        s,
    )[i] < spec_vertex_count(s) by {
        match s {
            Shape::Pentagon => {
                assert(spec_indices(s)[i] < 5);
            },
            Shape::Alternate => {
                assert(spec_indices(s)[i] < 7);
            },
        }
    }
}

/// Builds the shape's index list as the renderer uploads it.
pub fn shape_indices(s: Shape) -> (v: Vec<u16>)
    ensures
        v@ == spec_indices(s),
{
    let mut v: Vec<u16> = Vec::new();
    match s {
        Shape::Pentagon => {
            v.push(0);
            v.push(1);
            v.push(4);
            v.push(1);
            v.push(2);
            v.push(4);
            v.push(2);
            v.push(3);
            v.push(4);
        },
        Shape::Alternate => {
            v.push(0);
            v.push(6);
            v.push(1);
            v.push(6);
            v.push(5);
            v.push(4);
            v.push(4);
            v.push(5);
            v.push(3);
            v.push(4);
            v.push(3);
            v.push(1);
            v.push(1);
            v.push(3);
            v.push(2);
        },
    }
    proof {
        assert(v@ =~= spec_indices(s));
    }
    v
}

/// Relies on bytemuck::cast_slice: reinterpreting a slice of u16 as bytes
/// yields exactly two bytes per element (the one-byte target always divides
/// the input length, so the cast cannot fail).
#[verifier::external_body]
pub(crate) fn index_bytes(indices: &Vec<u16>) -> (r: Vec<u8>)
    ensures
        r@.len() == 2 * indices@.len(),
{
    bytemuck::cast_slice(indices.as_slice()).to_vec()
}

} // verus!
