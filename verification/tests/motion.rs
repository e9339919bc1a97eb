use input_motion::keys::DirectionKey;
use input_motion::keys::PressedKeySet;
use input_motion::motion::compute;
use input_motion::motion::MotionRequest;

fn set_of(keys: &[DirectionKey]) -> PressedKeySet {
    let mut s = PressedKeySet::empty();
    for &k in keys {
        s.insert(k);
    }
    s
}

/// Applies a motion request the way a host does under the fixed-world-axes
/// convention: scale the accumulator by `speed * dt / sqrt(norm_sq)`, or
/// return the zero vector when the accumulator is zero.
fn fixed_world_displacement(req: &MotionRequest, dt: f32, speed: f32) -> [f32; 3] {
    let d = req.world_axes_direction();
    let n: i32 = req.norm_sq();
    if n == 0 {
        return [0.0, 0.0, 0.0];
    }
    let scale: f32 = speed * dt / (n as f32).sqrt();
    [d.x as f32 * scale, d.y as f32 * scale, d.z as f32 * scale]
}

fn magnitude(v: [f32; 3]) -> f32 {
    (v[0] * v[0] + v[1] * v[1] + v[2] * v[2]).sqrt()
}

#[test]
fn empty_set_gives_zero_displacement() {
    let s = PressedKeySet::empty();
    assert!(s.is_empty());
    let req = compute(&s);
    assert!(req.is_zero());
    assert_eq!(req.norm_sq(), 0);
    for &(dt, speed) in &[(0.0_f32, 0.0_f32), (0.5, 1.5), (7.25, 100.0)] {
        assert_eq!(fixed_world_displacement(&req, dt, speed), [0.0, 0.0, 0.0]);
    }
}

#[test]
fn single_key_matches_signed_basis() {
    let cases: [(DirectionKey, i8, i8); 4] = [
        (DirectionKey::Forward, 1, 0),
        (DirectionKey::Back, -1, 0),
        (DirectionKey::Left, 0, -1),
        (DirectionKey::Right, 0, 1),
    ];
    for &(key, f, r) in &cases {
        let req = compute(&set_of(&[key]));
        assert_eq!(req.forward, f);
        assert_eq!(req.right, r);
        assert_eq!(req.norm_sq(), 1);
    }
}

#[test]
fn single_key_magnitude_is_speed_times_dt() {
    let dt: f32 = 0.25;
    let speed: f32 = 2.0;
    for &key in &[DirectionKey::Forward, DirectionKey::Back, DirectionKey::Left, DirectionKey::Right]
    {
        let req = compute(&set_of(&[key]));
        let disp = fixed_world_displacement(&req, dt, speed);
        assert_eq!(magnitude(disp), speed * dt);
        assert_eq!(disp[1], 0.0);
    }
}

#[test]
fn opposite_pairs_cancel() {
    let fb = compute(&set_of(&[DirectionKey::Forward, DirectionKey::Back]));
    assert!(fb.is_zero());
    let lr = compute(&set_of(&[DirectionKey::Left, DirectionKey::Right]));
    assert!(lr.is_zero());
    let all = compute(&set_of(&[
        DirectionKey::Forward,
        DirectionKey::Back,
        DirectionKey::Left,
        DirectionKey::Right,
    ]));
    assert!(all.is_zero());
    assert_eq!(fixed_world_displacement(&all, 1.0, 1.5), [0.0, 0.0, 0.0]);
}

#[test]
fn diagonal_is_normalized_not_inflated() {
    let dt: f32 = 1.0;
    let speed: f32 = 1.5;
    let req = compute(&set_of(&[DirectionKey::Forward, DirectionKey::Right]));
    assert_eq!(req.forward, 1);
    assert_eq!(req.right, 1);
    assert_eq!(req.norm_sq(), 2);
    let disp = fixed_world_displacement(&req, dt, speed);
    let m: f32 = magnitude(disp);
    assert!((m - speed * dt).abs() < 1e-5);
    let inflated: f32 = 2.0_f32.sqrt() * speed * dt;
    assert!((m - inflated).abs() > 0.5);
}

#[test]
fn compute_is_deterministic_and_bit_identical() {
    let a = compute(&set_of(&[DirectionKey::Back, DirectionKey::Left]));
    let b = compute(&set_of(&[DirectionKey::Back, DirectionKey::Left]));
    assert_eq!(a, b);
    let da = fixed_world_displacement(&a, 0.016, 1.5);
    let db = fixed_world_displacement(&b, 0.016, 1.5);
    assert_eq!(da[0].to_bits(), db[0].to_bits());
    assert_eq!(da[1].to_bits(), db[1].to_bits());
    assert_eq!(da[2].to_bits(), db[2].to_bits());
}

#[test]
fn forward_half_second_scenario() {
    let req = compute(&set_of(&[DirectionKey::Forward]));
    let disp = fixed_world_displacement(&req, 0.5, 1.5);
    assert_eq!(disp, [0.75, 0.0, 0.0]);
}

#[test]
fn forward_right_diagonal_scenario() {
    let req = compute(&set_of(&[DirectionKey::Forward, DirectionKey::Right]));
    let disp = fixed_world_displacement(&req, 1.0, 1.5);
    assert_eq!(disp[1], 0.0);
    assert_eq!(disp[0].to_bits(), disp[2].to_bits());
    assert!((disp[0] - 1.0606601).abs() < 1e-5);
    assert!((magnitude(disp) - 1.5).abs() < 1e-5);
}

#[test]
fn forward_back_scenario() {
    let req = compute(&set_of(&[DirectionKey::Forward, DirectionKey::Back]));
    let disp = fixed_world_displacement(&req, 1.0, 1.5);
    assert_eq!(disp, [0.0, 0.0, 0.0]);
}

#[test]
fn pressed_key_set_behaves_as_a_set() {
    let mut once = PressedKeySet::empty();
    once.insert(DirectionKey::Forward);
    let mut twice = PressedKeySet::empty();
    twice.insert(DirectionKey::Forward);
    twice.insert(DirectionKey::Forward);
    assert_eq!(once, twice);

    let mut fr = PressedKeySet::empty();
    fr.insert(DirectionKey::Forward);
    fr.insert(DirectionKey::Right);
    let mut rf = PressedKeySet::empty();
    rf.insert(DirectionKey::Right);
    rf.insert(DirectionKey::Forward);
    assert_eq!(fr, rf);

    assert!(fr.contains(DirectionKey::Forward));
    assert!(fr.contains(DirectionKey::Right));
    assert!(!fr.contains(DirectionKey::Back));
    assert!(!fr.is_empty());
}

#[test]
fn world_axes_direction_stays_horizontal() {
    let sets: [&[DirectionKey]; 4] = [
        &[],
        &[DirectionKey::Forward],
        &[DirectionKey::Back, DirectionKey::Left],
        &[DirectionKey::Forward, DirectionKey::Back, DirectionKey::Right],
    ];
    for keys in &sets {
        let v = compute(&set_of(keys)).world_axes_direction();
        assert_eq!(v.y, 0);
    }
}

#[test]
fn world_axes_direction_uses_x_forward_z_right() {
    let req = compute(&set_of(&[DirectionKey::Back, DirectionKey::Left]));
    let v = req.world_axes_direction();
    assert_eq!(v.x, -1);
    assert_eq!(v.y, 0);
    assert_eq!(v.z, -1);
}
