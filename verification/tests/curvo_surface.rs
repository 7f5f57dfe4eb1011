//! The buffer builder and the resolver fed with data produced by the real
//! curve-math library.

use curvo::prelude::{NurbsCurve3D, NurbsSurface3D, SurfaceTessellation};
use nalgebra::{Const, Point3, Vector3};
use nurbs_mesh::mesh::{Dim, Face, Tessellation, UvBits};
use nurbs_mesh::resolver::resolve_closest;

/// Converts the curve-math library's tessellation of a surface in three
/// dimensions into the library's bit-pattern form, rounding each coordinate
/// to single precision, exactly as a host application does.
fn convert(st: &SurfaceTessellation<f64, Const<4>>) -> Tessellation {
    let points: Vec<Vec<u32>> = st
        .points()
        .iter()
        .map(|p| p.coords.as_slice().iter().map(|c| (*c as f32).to_bits()).collect())
        .collect();
    let normals: Vec<Vec<u32>> = st
        .normals()
        .iter()
        .map(|n| n.as_slice().iter().map(|c| (*c as f32).to_bits()).collect())
        .collect();
    let uvs: Vec<UvBits> = st
        .uvs()
        .iter()
        .map(|w| UvBits { u: (w[0] as f32).to_bits(), v: (w[1] as f32).to_bits() })
        .collect();
    let faces: Vec<Face> = st
        .faces()
        .iter()
        .map(|f| Face::Tri(f[0] as u32, f[1] as u32, f[2] as u32))
        .collect();
    Tessellation::try_new(Dim::from_ambient(3), points, normals, uvs, faces)
        .expect("a tessellation from the curve-math library meets the invariant")
}

fn sphere_tessellation() -> SurfaceTessellation<f64, Const<4>> {
    let sphere = NurbsSurface3D::<f64>::try_sphere(
        &Point3::origin(),
        &Vector3::z(),
        &Vector3::x(),
        1.0,
    )
    .expect("sphere construction succeeds");
    sphere.regular_tessellate(8, 8)
}

#[test]
fn real_tessellation_builds_matching_buffers() {
    let st = sphere_tessellation();
    let t = convert(&st);
    let buffers = t.build_triangle_buffers();
    assert_eq!(buffers.positions.len(), st.points().len());
    assert_eq!(buffers.normals.len(), st.normals().len());
    assert_eq!(buffers.uvs.len(), st.uvs().len());
    assert_eq!(buffers.indices.len(), 3 * st.faces().len());
    for i in &buffers.indices {
        assert!((*i as usize) < buffers.positions.len());
    }
    // spot-check the projection of the first sample
    let p0 = st.points()[0];
    assert_eq!(buffers.positions[0].x, (p0.x as f32).to_bits());
    assert_eq!(buffers.positions[0].y, (p0.y as f32).to_bits());
    assert_eq!(buffers.positions[0].z, (p0.z as f32).to_bits());
}

#[test]
fn real_tessellation_buffers_are_bit_identical_across_calls() {
    let st = sphere_tessellation();
    let t = convert(&st);
    let a = t.build_triangle_buffers();
    let b = t.build_triangle_buffers();
    assert_eq!(a, b);
}

#[test]
fn real_normal_lines_pair_points_with_offsets() {
    let st = sphere_tessellation();
    let t = convert(&st);
    // offset each point along its unmodified normal, in single precision,
    // as a host without a length override does
    let ends: Vec<Vec<u32>> = st
        .points()
        .iter()
        .zip(st.normals().iter())
        .map(|(p, n)| {
            vec![
                ((p.x as f32) + (n.x as f32)).to_bits(),
                ((p.y as f32) + (n.y as f32)).to_bits(),
                ((p.z as f32) + (n.z as f32)).to_bits(),
            ]
        })
        .collect();
    let lines = t.build_normal_line_buffer(&ends);
    assert_eq!(lines.len(), 2 * st.points().len());
    let p0 = st.points()[0];
    assert_eq!(lines[0].x, (p0.x as f32).to_bits());
    assert_eq!(lines[1].x, ends[0][0]);
    assert_eq!(lines[1].y, ends[0][1]);
    assert_eq!(lines[1].z, ends[0][2]);
}

#[test]
fn real_curve_distance_drives_the_resolver() {
    // a unit circle in the XY plane around the origin, probed from (2, 0, 0):
    // the closest curve point is near (1, 0, 0), at distance close to 1
    let circle = NurbsCurve3D::<f64>::try_circle(
        &Point3::origin(),
        &Vector3::x(),
        &Vector3::y(),
        1.0,
    )
    .expect("circle construction succeeds");
    let probe = Point3::new(2.0, 0.0, 0.0);
    let closest = circle
        .find_closest_point(&probe)
        .expect("closest-point search succeeds");
    let dist = (closest - probe).norm();
    assert!((dist - 1.0).abs() < 1e-6);

    let distances = vec![Some(dist.to_bits())];
    // well above the distance: a match on the only candidate
    assert_eq!(resolve_closest(&distances, 1.5f64.to_bits()), Some(0));
    // well below the distance: no match
    assert_eq!(resolve_closest(&distances, 0.5f64.to_bits()), None);
}
