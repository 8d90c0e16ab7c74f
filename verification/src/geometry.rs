use vstd::prelude::*;

verus! {

/// One corner of the full-screen quad, in device-normalized coordinates.
/// Every coordinate of the quad is exactly -1 or 1, so the positions are
/// held as integers; the rendering layer widens them to the GPU's
/// floating-point vertex format.
#[derive(Clone, Copy, PartialEq, Eq, Structural, Debug)]
pub struct Vertex {
    pub x: i8,
    pub y: i8,
}

/// The fixed quad spanning [-1,1]x[-1,1], in triangle-strip order:
/// bottom-left, top-left, bottom-right, top-right.
pub open spec fn quad_spec() -> Seq<Vertex> {
    seq![
        Vertex { x: -1i8, y: -1i8 },
        Vertex { x: -1i8, y: 1i8 },
        Vertex { x: 1i8, y: -1i8 },
        Vertex { x: 1i8, y: 1i8 },
    ]
}

/// Builds the quad's vertex list. The geometry is created once at startup
/// and never mutated; every frame draws exactly these four vertices.
pub fn quad_vertices() -> (v: Vec<Vertex>)
    ensures
        v@ == quad_spec(),
        v@.len() == 4,
{
    let mut v: Vec<Vertex> = Vec::new();
    v.push(Vertex { x: -1i8, y: -1i8 });
    v.push(Vertex { x: -1i8, y: 1i8 });
    v.push(Vertex { x: 1i8, y: -1i8 });
    v.push(Vertex { x: 1i8, y: 1i8 });
    proof {
        assert(v@ =~= quad_spec());
    }
    v
}

/// Law: the quad's vertex positions are exactly the four corners of the
/// unit square {(-1,-1), (-1,1), (1,-1), (1,1)}, at every point in the
/// process lifetime (the geometry is immutable once built).
pub proof fn lemma_quad_is_unit_square()
    ensures
        quad_spec().len() == 4,
        quad_spec().to_set() =~= set![
            Vertex { x: -1i8, y: -1i8 },
            Vertex { x: -1i8, y: 1i8 },
            Vertex { x: 1i8, y: -1i8 },
            Vertex { x: 1i8, y: 1i8 },
        ],
{
    assert(quad_spec()[0] == (Vertex { x: -1i8, y: -1i8 }));
    assert(quad_spec()[1] == (Vertex { x: -1i8, y: 1i8 }));
    assert(quad_spec()[2] == (Vertex { x: 1i8, y: -1i8 }));
    assert(quad_spec()[3] == (Vertex { x: 1i8, y: 1i8 }));
    assert forall|v: Vertex| quad_spec().to_set().contains(v) implies set![
        Vertex { x: -1i8, y: -1i8 },
        Vertex { x: -1i8, y: 1i8 },
        Vertex { x: 1i8, y: -1i8 },
        Vertex { x: 1i8, y: 1i8 },
    ].contains(v) by {
        let i = choose|i: int| 0 <= i < quad_spec().len() && quad_spec()[i] == v;
    }
}

/// The fixed clear color, opaque blue, as (red, green, blue, alpha)
/// channel intensities. Each channel is exactly 0 or 1, so they are held
/// as integers; the rendering layer widens them to unit-interval floats.
pub fn clear_color() -> (c: (u8, u8, u8, u8))
    ensures
        c == (0u8, 0u8, 1u8, 1u8),
{
    (0, 0, 1, 1)
}

} // verus!
