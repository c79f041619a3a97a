//! Index lists of the basic shapes. Vertex positions are the caller's; what
//! is decided here is which vertices form the triangles.

use vstd::prelude::*;

verus! {

/// The topology of a shape: how many vertices it has and which of them,
/// three by three, make its triangles.
#[derive(Debug)]
pub struct GeometryData {
    pub vertex_count: u64,
    pub indices: Vec<u32>,
}

/// Why a shape has no index list.
#[derive(Clone, Copy, Debug, PartialEq, Eq, Structural)]
pub enum GeometryError {
    /// A circle needs at least two rim vertices.
    TooFewVertices,
    /// A vertex would get an index beyond 32 bits.
    TooManyVertices,
}

/// The most rings a sphere can have with 32-bit indices.
pub const MAX_SPHERE_ITERATIONS: usize = 65535;

/// The indices of the `t`-th triangle of a fan around vertex 0.
pub open spec fn fan_triangle(t: int) -> Seq<u32> {
    seq![0u32, (t + 1) as u32, (t + 2) as u32]
}

/// The indices of a fan of `triangles` triangles around vertex 0.
pub open spec fn fan_indices(triangles: nat) -> Seq<u32>
    decreases triangles,
{
    if triangles == 0 {
        Seq::empty()
    } else {
        fan_indices((triangles - 1) as nat) + fan_triangle(triangles - 1)
    }
}

/// The two triangles of the quad whose corner on the upper ring has index
/// `first`, on a sphere with `n + 1` vertices per ring.
pub open spec fn quad_indices(first: int, n: int) -> Seq<u32> {
    let second = first + n + 1;
    seq![
        first as u32,
        second as u32,
        (first + 1) as u32,
        second as u32,
        (second + 1) as u32,
        (first + 1) as u32,
    ]
}

/// The indices of the first `quads` quads between ring `lat` and the next.
pub open spec fn ring_indices(lat: int, n: int, quads: nat) -> Seq<u32>
    decreases quads,
{
    if quads == 0 {
        Seq::empty()
    } else {
        ring_indices(lat, n, (quads - 1) as nat) + quad_indices(lat * (n + 1) + (quads - 1), n)
    }
}

/// The indices of the quads between the first `rings + 1` rings of a sphere
/// with `n` quads per ring.
pub open spec fn sphere_indices(n: int, rings: nat) -> Seq<u32>
    decreases rings,
{
    if rings == 0 {
        Seq::empty()
    } else {
        sphere_indices(n, (rings - 1) as nat) + ring_indices(rings - 1, n, n as nat)
    }
}

/// A disc of `iterations` rim vertices as a triangle fan around the first.
/// With fewer than two vertices there is no disc, and beyond `2^32`
/// vertices the indices do not fit.
pub fn circle(iterations: usize) -> (r: Result<GeometryData, GeometryError>)
    ensures
        match r {
            Ok(shape) => 2 <= iterations <= 0x1_0000_0000 && shape.vertex_count == iterations
                && shape.indices@ == fan_indices((iterations - 2) as nat),
            Err(e) => e == (if iterations < 2 {
                GeometryError::TooFewVertices
            } else {
                GeometryError::TooManyVertices
            }) && !(2 <= iterations <= 0x1_0000_0000),
        },
{
    if iterations < 2 {
        return Err(GeometryError::TooFewVertices);
    }
    let triangles: usize = iterations - 2;
    if triangles > 0xFFFF_FFFE {
        return Err(GeometryError::TooManyVertices);
    }
    let mut indices: Vec<u32> = Vec::new();
    let mut t: usize = 0;
    while t < triangles
        invariant
            t <= triangles,
            triangles <= 0xFFFF_FFFE,
            indices@ == fan_indices(t as nat),
        decreases triangles - t,
    {
        indices.push(0);
        indices.push((t + 1) as u32);
        indices.push((t + 2) as u32);
        assert(indices@ =~= fan_indices(t as nat) + fan_triangle(t as int));
        t = t + 1;
    }
    Ok(GeometryData { vertex_count: iterations as u64, indices })
}

/// A sphere of `iterations` quads around and `iterations` quads from pole to
/// pole, over `(iterations + 1)^2` vertices laid out ring by ring. Beyond
/// 65535 iterations the indices do not fit in 32 bits.
pub fn sphere(iterations: usize) -> (r: Result<GeometryData, GeometryError>)
    ensures
        match r {
            Ok(shape) => iterations <= MAX_SPHERE_ITERATIONS && shape.vertex_count == (iterations
                + 1) * (iterations + 1) && shape.indices@ == sphere_indices(
                iterations as int,
                iterations as nat,
            ),
            Err(e) => iterations > MAX_SPHERE_ITERATIONS && e == GeometryError::TooManyVertices,
        },
{
    if iterations > MAX_SPHERE_ITERATIONS {
        return Err(GeometryError::TooManyVertices);
    }
    let n: u64 = iterations as u64;
    assert((n + 1) * (n + 1) <= 0x1_0000_0000) by (nonlinear_arith)
        requires
            n <= 65535,
    ;
    let mut indices: Vec<u32> = Vec::new();
    let mut lat: u64 = 0;
    while lat < n
        invariant
            lat <= n,
            n <= 65535,
            n == iterations,
            indices@ == sphere_indices(n as int, lat as nat),
        decreases n - lat,
    {
        let ghost before = indices@;
        let mut lon: u64 = 0;
        assert(indices@ =~= before + ring_indices(lat as int, n as int, 0));
        while lon < n
            invariant
                lon <= n,
                lat < n,
                n <= 65535,
                indices@ == before + ring_indices(lat as int, n as int, lon as nat),
            decreases n - lon,
        {
            assert(lat * (n + 1) + lon + n + 2 < (n + 1) * (n + 1)) by (nonlinear_arith)
                requires
                    lat < n,
                    lon < n,
            ;
            assert((n + 1) * (n + 1) <= 0x1_0000_0000) by (nonlinear_arith)
                requires
                    n <= 65535,
            ;
            assert(lat * (n + 1) <= 65535 * 65536) by (nonlinear_arith)
                requires
                    lat < n,
                    n <= 65535,
            ;
            let first: u64 = lat * (n + 1) + lon;
            let second: u64 = first + n + 1;
            indices.push(first as u32);
            indices.push(second as u32);
            indices.push((first + 1) as u32);
            indices.push(second as u32);
            indices.push((second + 1) as u32);
            indices.push((first + 1) as u32);
            assert(indices@ =~= before + (ring_indices(lat as int, n as int, lon as nat)
                + quad_indices(lat * (n + 1) + lon, n as int)));
            lon = lon + 1;
        }
        lat = lat + 1;
    }
    assert((n + 1) * (n + 1) == (iterations + 1) * (iterations + 1)) by (nonlinear_arith)
        requires
            n == iterations,
    ;
    Ok(GeometryData { vertex_count: (n + 1) * (n + 1), indices })
}

/// A fan of `triangles` triangles has three indices per triangle, all of
/// them among the first `triangles + 2` vertices, and its `t`-th triangle
/// joins vertex 0 to the rim vertices `t + 1` and `t + 2`.
pub proof fn lemma_fan_shape(triangles: nat)
    requires
        triangles + 2 <= 0x1_0000_0000,
    ensures
        fan_indices(triangles).len() == 3 * triangles,
        forall|k: int|
            0 <= k < 3 * triangles ==> (#[trigger] fan_indices(triangles)[k]) < triangles + 2,
        forall|t: int|
            0 <= t < triangles ==> #[trigger] fan_indices(triangles).subrange(3 * t, 3 * t + 3)
                == fan_triangle(t),
    decreases triangles,
{
    if triangles > 0 {
        let front = fan_indices((triangles - 1) as nat);
        lemma_fan_shape((triangles - 1) as nat);
        assert forall|t: int| 0 <= t < triangles implies #[trigger] fan_indices(
            triangles,
        ).subrange(3 * t, 3 * t + 3) == fan_triangle(t) by {
            if t < triangles - 1 {
                assert(fan_indices(triangles).subrange(3 * t, 3 * t + 3) =~= front.subrange(
                    3 * t,
                    3 * t + 3,
                ));
            } else {
                assert(fan_indices(triangles).subrange(3 * t, 3 * t + 3) =~= fan_triangle(t));
            }
        }
    }
}

/// The quads of one ring take six indices each, all below the number of
/// vertices of the first `lat + 2` rings.
pub proof fn lemma_ring_shape(lat: int, n: int, quads: nat)
    requires
        0 <= lat,
        0 <= n <= MAX_SPHERE_ITERATIONS,
        quads <= n,
        (lat + 2) * (n + 1) <= 0x1_0000_0000,
    ensures
        ring_indices(lat, n, quads).len() == 6 * quads,
        forall|k: int|
            0 <= k < 6 * quads ==> (#[trigger] ring_indices(lat, n, quads)[k]) < (lat + 2) * (n
                + 1),
    decreases quads,
{
    if quads > 0 {
        lemma_ring_shape(lat, n, (quads - 1) as nat);
        let first = lat * (n + 1) + (quads - 1);
        assert(0 <= lat * (n + 1)) by (nonlinear_arith)
            requires
                0 <= lat,
                0 <= n,
        ;
        assert((lat + 2) * (n + 1) == lat * (n + 1) + 2 * (n + 1)) by (nonlinear_arith);
        assert(first + n + 2 < (lat + 2) * (n + 1));
    }
}

/// A sphere's index list has six indices per quad and names only vertices
/// that exist.
pub proof fn lemma_sphere_shape(n: int, rings: nat)
    requires
        0 <= n <= MAX_SPHERE_ITERATIONS,
        rings <= n,
    ensures
        sphere_indices(n, rings).len() == 6 * n * rings,
        forall|k: int|
            0 <= k < sphere_indices(n, rings).len() ==> (#[trigger] sphere_indices(n, rings)[k])
                < (n + 1) * (n + 1),
    decreases rings,
{
    if rings > 0 {
        let lat = rings - 1;
        lemma_sphere_shape(n, (rings - 1) as nat);
        assert((lat + 2) * (n + 1) <= (n + 1) * (n + 1)) by (nonlinear_arith)
            requires
                0 <= lat,
                lat + 1 <= n,
        ;
        assert((n + 1) * (n + 1) <= 0x1_0000_0000) by (nonlinear_arith)
            requires
                0 <= n <= 65535,
        ;
        lemma_ring_shape(lat, n, n as nat);
        assert(6 * n * rings == 6 * n * (rings - 1) + 6 * n) by (nonlinear_arith);
    } else {
        assert(6 * n * rings == 0) by (nonlinear_arith)
            requires
                rings == 0,
        ;
    }
}

} // verus!
