use deepzoom::bigfloat::ReducedComplex;
use deepzoom::gpu::{quad_indices, quad_vertices, unpack_globals, vertex_buffer_bytes, Globals, Storable, Vertex};
use deepzoom::orbit::ReferenceOrbit;

fn sample_globals() -> Globals {
    Globals {
        time_bits: 1.5f32.to_bits(),
        scale_bits: 0.25f32.to_bits(),
        radius_bits: 2.0f32.to_bits(),
        center: ReducedComplex {
            re_bits: (-0.75f32).to_bits(),
            im_bits: 0.1f32.to_bits(),
        },
        orbit_offset: ReducedComplex {
            re_bits: 0.5f32.to_bits(),
            im_bits: (-0.5f32).to_bits(),
        },
        coeff_a: ReducedComplex { re_bits: 1.0f32.to_bits(), im_bits: 0.0f32.to_bits() },
        coeff_b: ReducedComplex { re_bits: 3.5f32.to_bits(), im_bits: 7.0f32.to_bits() },
        coeff_c: ReducedComplex { re_bits: 11.0f32.to_bits(), im_bits: 13.0f32.to_bits() },
        coeff_d: ReducedComplex { re_bits: 17.0f32.to_bits(), im_bits: 19.0f32.to_bits() },
    }
}

#[test]
fn packed_record_size_and_roundtrip() {
    let g = sample_globals();
    let bytes = g.into_bytes();
    // 92 bytes of aligned field sizes plus the 4 padding bytes in front of
    // the first 8-byte-aligned vector.
    assert_eq!(bytes.len(), 96);
    let h = unpack_globals(&bytes).unwrap();
    assert_eq!(h, g);
}

#[test]
fn packed_record_field_offsets() {
    let g = sample_globals();
    let bytes = g.into_bytes();
    assert_eq!(bytes[0..4], g.time_bits.to_le_bytes());
    assert_eq!(bytes[4..8], g.scale_bits.to_le_bytes());
    assert_eq!(bytes[8..12], g.radius_bits.to_le_bytes());
    // alignment padding before the first two-component vector
    assert_eq!(bytes[12..16], [0, 0, 0, 0]);
    assert_eq!(bytes[16..20], g.center.re_bits.to_le_bytes());
    assert_eq!(bytes[20..24], g.center.im_bits.to_le_bytes());
    assert_eq!(bytes[24..28], g.orbit_offset.re_bits.to_le_bytes());
    assert_eq!(bytes[28..32], g.orbit_offset.im_bits.to_le_bytes());
    // the four coefficients sit in 16-byte slots with padded upper lanes
    assert_eq!(bytes[32..36], g.coeff_a.re_bits.to_le_bytes());
    assert_eq!(bytes[36..40], g.coeff_a.im_bits.to_le_bytes());
    assert_eq!(bytes[40..48], [0, 0, 0, 0, 0, 0, 0, 0]);
    assert_eq!(bytes[48..52], g.coeff_b.re_bits.to_le_bytes());
    assert_eq!(bytes[64..68], g.coeff_c.re_bits.to_le_bytes());
    assert_eq!(bytes[80..84], g.coeff_d.re_bits.to_le_bytes());
    assert_eq!(bytes[88..96], [0, 0, 0, 0, 0, 0, 0, 0]);
}

#[test]
fn unpack_rejects_wrong_size() {
    let g = sample_globals();
    let mut bytes = g.into_bytes();
    bytes.push(0);
    assert!(unpack_globals(&bytes).is_none());
}

#[test]
fn orbit_buffer_is_length_prefixed() {
    let orbit = ReferenceOrbit {
        points: vec![
            ReducedComplex { re_bits: 0.75f32.to_bits(), im_bits: 0.0f32.to_bits() },
            ReducedComplex { re_bits: 1.0f32.to_bits(), im_bits: 2.0f32.to_bits() },
            ReducedComplex { re_bits: 3.0f32.to_bits(), im_bits: 4.0f32.to_bits() },
        ],
        escaped_at: None,
    };
    let bytes = orbit.into_bytes();
    assert_eq!(bytes.len(), 8 + 8 * 3);
    assert_eq!(bytes[0..4], 3u32.to_le_bytes());
    assert_eq!(bytes[4..8], [0, 0, 0, 0]);
    assert_eq!(bytes[8..12], 0.75f32.to_bits().to_le_bytes());
    assert_eq!(bytes[12..16], 0.0f32.to_bits().to_le_bytes());
    assert_eq!(bytes[24..28], 3.0f32.to_bits().to_le_bytes());
    assert_eq!(bytes[28..32], 4.0f32.to_bits().to_le_bytes());
}

#[test]
fn empty_orbit_buffer_is_header_only() {
    let orbit = ReferenceOrbit { points: Vec::new(), escaped_at: None };
    let bytes = orbit.into_bytes();
    assert_eq!(bytes.len(), 8);
    assert_eq!(bytes[0..4], 0u32.to_le_bytes());
}

fn lanes(v: &Vertex) -> (f32, f32, f32, f32, f32) {
    (
        f32::from_bits(v.x_bits),
        f32::from_bits(v.y_bits),
        f32::from_bits(v.z_bits),
        f32::from_bits(v.u_bits),
        f32::from_bits(v.v_bits),
    )
}

#[test]
fn quad_geometry_matches_the_render_pass_contract() {
    let vs = quad_vertices();
    assert_eq!(vs.len(), 4);
    assert_eq!(lanes(&vs[0]), (-1.0, 1.0, 0.0, 0.0, 1.0));
    assert_eq!(lanes(&vs[1]), (-1.0, -1.0, 0.0, 0.0, 0.0));
    assert_eq!(lanes(&vs[2]), (1.0, -1.0, 0.0, 1.0, 0.0));
    assert_eq!(lanes(&vs[3]), (1.0, 1.0, 0.0, 1.0, 1.0));
    assert_eq!(quad_indices(), vec![0, 1, 2, 2, 3, 0]);
}

#[test]
fn vertex_buffer_is_tightly_packed() {
    let bytes = vertex_buffer_bytes(&quad_vertices());
    assert_eq!(bytes.len(), 4 * 20);
    assert_eq!(bytes[0..4], (-1.0f32).to_bits().to_le_bytes());
    assert_eq!(bytes[4..8], 1.0f32.to_bits().to_le_bytes());
    assert_eq!(bytes[8..12], [0, 0, 0, 0]);
    assert_eq!(bytes[16..20], 1.0f32.to_bits().to_le_bytes());
    assert_eq!(bytes[20..24], (-1.0f32).to_bits().to_le_bytes());
}
