//! The fixed demo geometry: five vertices and the nine indices that form
//! three triangles over them.

use vstd::prelude::*;
use crate::raster::spec_orient;

verus! {

/// One vertex of the demo geometry. Coordinates are held in thousandths:
/// a position component of 500 stands for 0.5 in normalized device
/// coordinates, a texture coordinate of 250 for 0.25.
#[derive(Clone, Copy, PartialEq, Eq, Structural, Debug)]
pub struct Vertex {
    pub x_milli: i32,
    pub y_milli: i32,
    pub z_milli: i32,
    pub u_milli: i32,
    pub v_milli: i32,
}

/// The fixed vertex list the demo uploads once: a triangle tip and base,
/// then the two outer points of the fan.
pub open spec fn spec_vertices() -> Seq<Vertex> {
    seq![
        Vertex { x_milli: 0, y_milli: 500, z_milli: 0, u_milli: 500, v_milli: 0 },
        Vertex { x_milli: -250i32, y_milli: -500i32, z_milli: 1000, u_milli: 250, v_milli: 1000 },
        Vertex { x_milli: 250, y_milli: -500i32, z_milli: 0, u_milli: 750, v_milli: 1000 },
        Vertex { x_milli: 400, y_milli: 100, z_milli: 0, u_milli: 1000, v_milli: 350 },
        Vertex { x_milli: -400i32, y_milli: 100, z_milli: 0, u_milli: 0, v_milli: 420 },
    ]
}

/// The fixed index list the demo uploads once: three triangles over the
/// five vertices.
pub open spec fn spec_indices() -> Seq<u16> {
    seq![0u16, 1u16, 2u16, 3u16, 0u16, 2u16, 4u16, 1u16, 0u16]
}

/// Builds the fixed vertex list.
pub fn vertices() -> (v: Vec<Vertex>)
    ensures
        v@ == spec_vertices(),
{
    let mut v: Vec<Vertex> = Vec::new();
    v.push(Vertex { x_milli: 0, y_milli: 500, z_milli: 0, u_milli: 500, v_milli: 0 });
    v.push(Vertex { x_milli: -250, y_milli: -500, z_milli: 1000, u_milli: 250, v_milli: 1000 });
    v.push(Vertex { x_milli: 250, y_milli: -500, z_milli: 0, u_milli: 750, v_milli: 1000 });
    v.push(Vertex { x_milli: 400, y_milli: 100, z_milli: 0, u_milli: 1000, v_milli: 350 });
    v.push(Vertex { x_milli: -400, y_milli: 100, z_milli: 0, u_milli: 0, v_milli: 420 });
    proof {
        assert(v@ =~= spec_vertices());
    }
    v
}

/// Builds the fixed index list.
pub fn indices() -> (v: Vec<u16>)
    ensures
        v@ == spec_indices(),
{
    let mut v: Vec<u16> = Vec::new();
    v.push(0);
    v.push(1);
    v.push(2);
    v.push(3);
    v.push(0);
    v.push(2);
    v.push(4);
    v.push(1);
    v.push(0);
    proof {
        assert(v@ =~= spec_indices());
    }
    v
}

/// Twice the signed area, in device coordinates, of triangle `k` of the
/// fixed index list: positive when the triangle winds counter-clockwise.
pub open spec fn spec_demo_area2(k: int) -> int {
    let a = spec_vertices()[spec_indices()[3 * k] as int];
    let b = spec_vertices()[spec_indices()[3 * k + 1] as int];
    let c = spec_vertices()[spec_indices()[3 * k + 2] as int];
    spec_orient(
        a.x_milli as int,
        a.y_milli as int,
        b.x_milli as int,
        b.y_milli as int,
        c.x_milli as int,
        c.y_milli as int,
    )
}

/// Each of the three triangles the fixed index list forms winds
/// counter-clockwise in device coordinates, the front-face orientation
/// the fixed pipeline names: back-face culling drops none of them.
pub proof fn lemma_demo_triangles_front_facing()
    ensures
        forall|k: int| 0 <= k < spec_indices().len() / 3 ==> #[trigger] spec_demo_area2(k) > 0,
{
    assert(spec_indices().len() == 9);
    assert(spec_demo_area2(0) == spec_orient(0, 500, -250, -500, 250, -500));
    assert(spec_demo_area2(1) == spec_orient(400, 100, 0, 500, 250, -500));
    assert(spec_demo_area2(2) == spec_orient(-400, 100, -250, -500, 0, 500));
    assert(spec_orient(0, 500, -250, -500, 250, -500) == 500000);
    assert(spec_orient(400, 100, 0, 500, 250, -500) == 300000);
    assert(spec_orient(-400, 100, -250, -500, 0, 500) == 300000);
}

/// Every entry of the fixed index list refers to one of the fixed
/// vertices: each index is below the vertex count.
pub proof fn lemma_indices_in_range()
    ensures
        forall|i: int|
            0 <= i < spec_indices().len() ==> (spec_indices()[i] as int) < spec_vertices().len(),
{
}

} // verus!
