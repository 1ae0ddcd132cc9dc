use lander::controller::Vec2Fixed;
use lander::terrain::build_terrain;

#[test]
fn three_samples_with_identity_noise() {
    // the noise field stubbed to return x on [0, 1]: heights are the
    // normalized sample coordinates themselves, in micro-units
    let heights: Vec<i64> = vec![0, 500_000, 1_000_000];
    let t = build_terrain(200, 50, 500_000, &heights);
    // y = height * 50 + 50 in units; coordinates in micro-units
    assert_eq!(
        t.boundary_points,
        vec![
            Vec2Fixed { x: 0, y: 50_000_000 },
            Vec2Fixed { x: 100_000_000, y: 75_000_000 },
            Vec2Fixed { x: 200_000_000, y: 100_000_000 },
        ]
    );
    // the collision polyline holds exactly the boundary points, without the
    // closing point
    assert_eq!(t.collision_polyline(), &t.boundary_points);
    assert_eq!(t.collision_polyline().len(), 3);
    // the surface outline adds exactly one closing point at the domain's
    // bottom-right corner
    assert_eq!(t.surface_points.len(), 4);
    assert_eq!(t.surface_points[..3], t.boundary_points[..]);
    assert_eq!(t.surface_points[3], Vec2Fixed { x: 200_000_000, y: 0 });
}

#[test]
fn sample_count_is_closed_form() {
    // step 0.01 across [0, 1]: floor(1 / 0.01) + 1 = 101 samples
    let heights: Vec<i64> = vec![0; 101];
    let t = build_terrain(200, 50, 10_000, &heights);
    assert_eq!(t.boundary_points.len(), 101);
    assert_eq!(t.surface_points.len(), 102);
}

#[test]
fn uneven_step_keeps_closed_form_count() {
    // step 0.3: floor(1 / 0.3) + 1 = 4 samples, the last at 0.9, short of
    // the right edge; the closing point still sits at the full width
    let heights: Vec<i64> = vec![-1_000_000, 0, 250_000, 1_000_000];
    let t = build_terrain(100, 20, 300_000, &heights);
    assert_eq!(t.boundary_points.len(), 4);
    assert_eq!(t.boundary_points[3].x, 90_000_000);
    assert_eq!(t.surface_points[4].x, 100_000_000);
    assert_eq!(t.surface_points[4].y, 0);
    // a height of -1 maps to the domain floor: y = -1 * 20 + 20 = 0
    assert_eq!(t.boundary_points[0].y, 0);
}

#[test]
fn coarsest_step_gives_two_samples() {
    // step 1.0: floor(1 / 1) + 1 = 2 samples, at the domain's edges; the
    // closing point shares the last sample's x and drops to the floor
    let heights: Vec<i64> = vec![500_000, -500_000];
    let t = build_terrain(80, 40, 1_000_000, &heights);
    assert_eq!(
        t.boundary_points,
        vec![
            Vec2Fixed { x: 0, y: 60_000_000 },
            Vec2Fixed { x: 80_000_000, y: 20_000_000 },
        ]
    );
    assert_eq!(t.surface_points[2], Vec2Fixed { x: 80_000_000, y: 0 });
}

#[test]
fn x_coordinates_strictly_increase() {
    let heights: Vec<i64> = vec![700_000; 11];
    let t = build_terrain(3, 1, 100_000, &heights);
    assert_eq!(t.boundary_points.len(), 11);
    for i in 0..t.boundary_points.len() - 1 {
        assert!(t.boundary_points[i].x < t.boundary_points[i + 1].x);
    }
}
