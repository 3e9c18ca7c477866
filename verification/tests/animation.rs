use orbits::color::IntColor;
use orbits::model::{shape_of_index, update, AppState, Model, Shape, MAX_DISTANCE2};
use orbits::render::{view, DrawCommand};

fn base_model(state: AppState) -> Model {
    Model {
        app_state: state,
        radius: 20,
        distance_step2: 20,
        current_distance2: 100,
        orbit_step: 0,
        max_orbit_step: 100,
        max_distance2: MAX_DISTANCE2,
        current_color: IntColor { r: 1, g: 2, b: 3 },
        current_mix_color: IntColor { r: 4, g: 5, b: 6 },
        shape: Shape::Circle,
    }
}

#[test]
fn mix_formula_exact() {
    let base = IntColor::new(10, 20, 30);
    let c = base.mixed_with_rolls(0, 255, 100);
    assert_eq!(c.r, (0 + 10) / 2);
    assert_eq!(c.g, (255 + 20) / 2);
    assert_eq!(c.b, (100 + 30) / 2);
    assert_eq!((c.r, c.g, c.b), (5, 137, 65));
}

#[test]
fn mix_stays_in_range_for_every_roll() {
    let base = IntColor::new(255, 0, 137);
    for roll in 0..256u32 {
        let c = base.mixed_with_rolls(roll, roll, roll);
        assert!(c.r <= 255 && c.g <= 255 && c.b <= 255);
        assert_eq!(c.r, (roll + 255) / 2);
        assert_eq!(c.g, roll / 2);
        assert_eq!(c.b, (roll + 137) / 2);
    }
}

#[test]
fn new_mix_color_is_a_jittered_average() {
    let black = IntColor::new(0, 0, 0);
    let white = IntColor::new(255, 255, 255);
    for _ in 0..200 {
        let c = black.new_mix_color();
        // (roll + 0) / 2 with roll in [0, 255]
        assert!(c.r <= 127 && c.g <= 127 && c.b <= 127);
        let d = white.new_mix_color();
        // (roll + 255) / 2 with roll in [0, 255]
        assert!(127 <= d.r && d.r <= 255);
        assert!(127 <= d.g && d.g <= 255);
        assert!(127 <= d.b && d.b <= 255);
    }
}

#[test]
fn random_color_channels_in_range() {
    for _ in 0..500 {
        let c = IntColor::rand();
        assert!(c.r <= 255 && c.g <= 255 && c.b <= 255);
    }
}

#[test]
fn radius_always_in_range() {
    for _ in 0..1000 {
        let r = Model::rand_radius();
        assert!((10..40).contains(&r));
    }
}

#[test]
fn max_orbit_step_always_in_range() {
    for _ in 0..1000 {
        let n = Model::rand_max_orbit_step();
        assert!((80..250).contains(&n));
    }
}

#[test]
fn shape_statistically_covers_all_variants() {
    let mut circles = 0u32;
    let mut squares = 0u32;
    let mut triangles = 0u32;
    for _ in 0..3000 {
        match Model::rand_shape() {
            Shape::Circle => circles += 1,
            Shape::Square => squares += 1,
            Shape::IsoTriangle => triangles += 1,
        }
    }
    // each variant has probability 1/3 per draw; 3000 draws leave each
    // well above this floor with overwhelming likelihood
    assert!(circles > 500 && squares > 500 && triangles > 500);
}

#[test]
fn shape_index_mapping() {
    assert_eq!(shape_of_index(0), Shape::Circle);
    assert_eq!(shape_of_index(1), Shape::Square);
    assert_eq!(shape_of_index(2), Shape::IsoTriangle);
    assert_eq!(shape_of_index(7), Shape::Circle);
}

#[test]
fn fresh_model_starts_an_orbit() {
    let mix = IntColor::new(40, 50, 60);
    let m = Model::new(AppState::Initialize, mix);
    assert!(matches!(m.app_state, AppState::Initialize));
    assert!((10..40).contains(&m.radius));
    assert_eq!(m.distance_step2, m.radius);
    assert_eq!(m.current_distance2, 4 * m.radius);
    assert_eq!(m.orbit_step, 0);
    assert!((80..250).contains(&m.max_orbit_step));
    assert_eq!(m.max_distance2, 1200);
    assert_eq!(m.current_mix_color, mix);
    // each draw channel averages a roll in [0, 255] with the base channel
    assert!((20..=147).contains(&m.current_color.r));
    assert!((25..=152).contains(&m.current_color.g));
    assert!((30..=157).contains(&m.current_color.b));
    assert!(m.check_wf());
}

#[test]
fn check_wf_rejects_broken_models() {
    assert!(base_model(AppState::Wait).check_wf());
    let mut m = base_model(AppState::Wait);
    m.orbit_step = 1; // Waiting demands a zeroed sweep counter
    assert!(!m.check_wf());
    let mut m = base_model(AppState::Update);
    m.radius = 40; // out of [10, 40)
    assert!(!m.check_wf());
    let mut m = base_model(AppState::Update);
    m.distance_step2 = 7; // the ring step must equal the radius in half-units
    assert!(!m.check_wf());
}

#[test]
fn advancing_keeps_distance_and_counts_frames() {
    let mut m = base_model(AppState::Update);
    m.orbit_step = 5;
    update(&mut m, false, false);
    assert!(matches!(m.app_state, AppState::Update));
    assert_eq!(m.orbit_step, 6);
    assert_eq!(m.current_distance2, 100);
    assert_eq!(m.radius, 20);
    assert_eq!(m.current_color, IntColor { r: 1, g: 2, b: 3 });
}

#[test]
fn sweep_past_max_enters_resetting_ring() {
    let mut m = base_model(AppState::Update);
    m.orbit_step = m.max_orbit_step;
    update(&mut m, false, false);
    assert!(matches!(m.app_state, AppState::Reset));
    assert_eq!(m.orbit_step, 101);
    assert_eq!(m.current_distance2, 100);
}

#[test]
fn ring_reset_steps_outward_and_rerolls_the_ring() {
    let mut m = base_model(AppState::Reset);
    m.orbit_step = 101;
    update(&mut m, false, false);
    // 100 + 20 stays under the ceiling: a new ring starts
    assert!(matches!(m.app_state, AppState::Update));
    assert_eq!(m.current_distance2, 120);
    assert_eq!(m.orbit_step, 0);
    assert!((10..40).contains(&m.radius));
    assert_eq!(m.distance_step2, m.radius);
    assert!((80..250).contains(&m.max_orbit_step));
    // the new draw color averages rolls with the unchanged base (4, 5, 6)
    assert_eq!(m.current_mix_color, IntColor { r: 4, g: 5, b: 6 });
    assert!((2..=129).contains(&m.current_color.r));
    assert!((2..=130).contains(&m.current_color.g));
    assert!((3..=130).contains(&m.current_color.b));
    assert_eq!(m.shape, Shape::Circle);
}

#[test]
fn ring_reset_past_ceiling_finishes_the_orbit() {
    let mut m = base_model(AppState::Reset);
    m.current_distance2 = 1195;
    m.orbit_step = 101;
    update(&mut m, false, false);
    // 1195 + 20 passes the ceiling of 1200
    assert!(matches!(m.app_state, AppState::NewOrbit));
    assert_eq!(m.current_distance2, 1215);
    assert_eq!(m.orbit_step, 101);
}

#[test]
fn new_orbit_resets_position_and_rerolls_base() {
    let mut m = base_model(AppState::NewOrbit);
    m.current_distance2 = 1215;
    m.orbit_step = 101;
    update(&mut m, false, false);
    assert!(matches!(m.app_state, AppState::Wait));
    assert_eq!(m.orbit_step, 0);
    assert_eq!(m.current_distance2, 4 * m.radius);
    assert_eq!(m.radius, 20);
    let base = m.current_mix_color;
    assert!(base.r <= 255 && base.g <= 255 && base.b <= 255);
    // the draw color is a mix of the fresh base
    assert!(base.r / 2 <= m.current_color.r && m.current_color.r <= (base.r + 255) / 2);
    assert!(base.g / 2 <= m.current_color.g && m.current_color.g <= (base.g + 255) / 2);
    assert!(base.b / 2 <= m.current_color.b && m.current_color.b <= (base.b + 255) / 2);
}

#[test]
fn waiting_holds_until_advance_key() {
    let mut m = base_model(AppState::Wait);
    update(&mut m, false, false);
    assert!(matches!(m.app_state, AppState::Wait));
    update(&mut m, true, false);
    assert!(matches!(m.app_state, AppState::Clear));
    update(&mut m, false, false);
    assert!(matches!(m.app_state, AppState::Update));
    assert_eq!(m.orbit_step, 0);
}

#[test]
fn restart_key_forces_new_orbit_mid_sweep() {
    let mut m = base_model(AppState::Update);
    m.orbit_step = 50;
    update(&mut m, false, true);
    assert!(matches!(m.app_state, AppState::NewOrbit));
    update(&mut m, false, false);
    assert!(matches!(m.app_state, AppState::Wait));
    assert_eq!(m.orbit_step, 0);
    assert_eq!(m.current_distance2, 4 * m.radius);
}

#[test]
fn restart_key_forces_new_orbit_from_every_phase() {
    for state in [
        AppState::Initialize,
        AppState::Clear,
        AppState::Update,
        AppState::NewOrbit,
        AppState::Reset,
        AppState::Wait,
    ] {
        let mut m = base_model(state);
        update(&mut m, false, true);
        assert!(matches!(m.app_state, AppState::NewOrbit));
    }
}

#[test]
fn initializing_behaves_like_the_default_arm() {
    let mut m = base_model(AppState::Initialize);
    update(&mut m, false, false);
    assert!(matches!(m.app_state, AppState::Clear));
    assert_eq!(m.orbit_step, 0);
    assert_eq!(m.current_distance2, 100);
}

#[test]
fn clearing_frame_draws_the_background() {
    let m = base_model(AppState::Clear);
    assert_eq!(view(&m), DrawCommand::ClearBackground);
}

#[test]
fn advancing_frame_draws_the_shape() {
    let mut m = base_model(AppState::Update);
    m.orbit_step = 42;
    m.shape = Shape::IsoTriangle;
    let cmd = view(&m);
    assert_eq!(
        cmd,
        DrawCommand::DrawShape {
            shape: Shape::IsoTriangle,
            radius: 20,
            orbit_step: 42,
            max_orbit_step: 100,
            distance2: 100,
            color: IntColor { r: 1, g: 2, b: 3 },
        }
    );
}

#[test]
fn other_frames_draw_nothing() {
    for state in [AppState::Initialize, AppState::NewOrbit, AppState::Reset, AppState::Wait] {
        let m = base_model(state);
        assert_eq!(view(&m), DrawCommand::Nothing);
    }
}
