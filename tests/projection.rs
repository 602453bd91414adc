use daneel_web::lcg::{lcg_outputs, lcg_step};
use daneel_web::projection::{ProjectionState, DIM, DRAW_COUNT, MATRIX_LEN, MATRIX_SEED};
use daneel_web::vectors::{
    get_law_crystals, manifold_points, manifold_response, point_age, point_from_record,
    VectorRecord,
};

/// Gaussian entries in millionths, drawn from the generator by Box-Muller.
fn gaussians() -> Vec<i32> {
    let draws = lcg_outputs(MATRIX_SEED, DRAW_COUNT);
    (0..MATRIX_LEN)
        .map(|k| {
            let u1 = draws[2 * k] as f32 / u64::MAX as f32;
            let u2 = draws[2 * k + 1] as f32 / u64::MAX as f32;
            let z = (-2.0 * u1.ln()).sqrt() * (2.0 * std::f32::consts::PI * u2).cos();
            (z * 1_000_000.0).round() as i32
        })
        .collect()
}

fn random_projection() -> ProjectionState {
    ProjectionState::from_gaussians(&gaussians()).unwrap()
}

#[test]
fn generator_is_reproducible() {
    assert_eq!(lcg_outputs(42, 100), lcg_outputs(42, 100));
    assert_eq!(lcg_step(0), 12345);
    assert_eq!(lcg_outputs(0, 2), vec![12345, 12345u64.wrapping_mul(1103515245).wrapping_add(12345)]);
    assert_eq!(lcg_outputs(42, DRAW_COUNT).len(), DRAW_COUNT);
}

#[test]
fn matrix_is_reproducible() {
    let a = random_projection();
    let b = random_projection();
    assert_eq!(a.matrix, b.matrix);
    assert!(!a.is_trained);
    assert_eq!(a.matrix.len(), MATRIX_LEN);
}

#[test]
fn columns_have_unit_norm() {
    let p = random_projection();
    for j in 0..3 {
        let sum: f64 = (0..DIM).map(|i| (p.matrix[i * 3 + j] as f64 / 1e6).powi(2)).sum();
        assert!((sum.sqrt() - 1.0).abs() < 1e-3, "column {} has norm {}", j, sum.sqrt());
    }
}

#[test]
fn column_scaling_exact() {
    let mut raw = vec![0i32; MATRIX_LEN];
    raw[0] = 3;
    raw[3] = 4;
    raw[1] = -5;
    let p = ProjectionState::from_gaussians(&raw).unwrap();
    assert_eq!(p.matrix[0], 600_000);
    assert_eq!(p.matrix[3], 800_000);
    assert_eq!(p.matrix[1], -1_000_000);
    assert_eq!(p.matrix[2], 0);
    assert!(ProjectionState::from_gaussians(&vec![1; 10]).is_none());
}

#[test]
fn projection_is_deterministic() {
    let p = random_projection();
    let v: Vec<i32> = (0..DIM as i32).map(|i| (i % 17 - 8) * 10_000).collect();
    assert_eq!(p.project(&v), p.project(&v));
    let mut raw = vec![0i32; MATRIX_LEN];
    raw[0] = 1;
    raw[4] = 1;
    raw[8] = 1;
    let id = ProjectionState::from_gaussians(&raw).unwrap();
    let mut w = vec![0i32; DIM];
    w[0] = 250_000;
    w[1] = -125_000;
    w[2] = 3;
    assert_eq!(id.project(&w), (250_000, -125_000, 3));
    w[2] = 0;
    w[5] = 7;
    assert_eq!(id.project(&w), (250_000, -125_000, 0));
}

#[test]
fn wrong_length_projects_to_origin() {
    let p = random_projection();
    assert_eq!(p.project(&[]), (0, 0, 0));
    assert_eq!(p.project(&vec![1_000_000; 384]), (0, 0, 0));
    assert_eq!(p.project(&vec![1_000_000; 769]), (0, 0, 0));
}

#[test]
fn empty_store_gives_anchors_only() {
    let p = random_projection();
    let r = manifold_response(&p, Some(vec![]), 1000);
    assert!(r.points.is_empty());
    assert_eq!(r.crystals.len(), 4);
    assert_eq!(r.projection_type, "random");
    assert_eq!(r.crystals[0].name, "Law 0: Humanity");
    assert_eq!((r.crystals[0].x, r.crystals[0].y, r.crystals[0].z), (0, 1_500_000, 0));
    assert_eq!(r.crystals[3].law, 3);
    assert_eq!(r.crystals[3].z, -1_200_000);
    let r = manifold_response(&p, None, 1000);
    assert!(r.points.is_empty());
    assert_eq!(get_law_crystals(&p).len(), 4);
}

#[test]
fn malformed_records_are_skipped() {
    let p = random_projection();
    let recs = vec![
        VectorRecord { id: Some("a".into()), vector: None, salience: None, encoded_at: None },
        VectorRecord {
            id: None,
            vector: Some(vec![0; DIM]),
            salience: None,
            encoded_at: Some("not a date".into()),
        },
        VectorRecord {
            id: Some("c".into()),
            vector: Some(vec![1; 3]),
            salience: Some(2_000_000),
            encoded_at: None,
        },
    ];
    let pts = manifold_points(&p, &recs, 5000);
    assert_eq!(pts.len(), 2);
    assert_eq!(pts[0].id, "unknown");
    assert_eq!(pts[0].salience, 500_000);
    assert_eq!(pts[0].age_ms, 0);
    assert_eq!((pts[0].x, pts[0].y, pts[0].z), (0, 0, 0));
    assert_eq!(pts[1].id, "c");
    assert_eq!(pts[1].salience, 1_000_000);
}

#[test]
fn age_from_timestamp() {
    let p = random_projection();
    // 2024-01-01T00:00:00Z is 1_704_067_200_000 ms after the epoch.
    let rec = VectorRecord {
        id: Some("t".into()),
        vector: Some(vec![0; DIM]),
        salience: Some(250_000),
        encoded_at: Some("2024-01-01T00:00:00Z".into()),
    };
    let pt = point_from_record(&p, &rec, 1_704_067_205_000).unwrap();
    assert_eq!(pt.age_ms, 5000);
    assert_eq!(pt.salience, 250_000);
    let rec = VectorRecord {
        id: None,
        vector: Some(vec![0; DIM]),
        salience: None,
        encoded_at: Some("2024-01-01T01:00:00+01:00".into()),
    };
    assert_eq!(point_from_record(&p, &rec, 1_704_067_200_001).unwrap().age_ms, 1);
    assert_eq!(point_age(100, Some(150)), 0);
    assert_eq!(point_age(100, Some(40)), 60);
    assert_eq!(point_age(100, None), 0);
}
