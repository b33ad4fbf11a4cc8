use player_motion::app::count_n_players;
use player_motion::app::create_app;
use player_motion::app::create_app_with_parameters;
use player_motion::app::get_player_position;
use player_motion::app::get_player_size;
use player_motion::app::get_player_velocity;
use player_motion::app::App;
use player_motion::float_bits::Vec2Bits;
use player_motion::float_bits::Vec3Bits;
use player_motion::game_parameters::create_default_game_parameters_with_player_velocity;
use player_motion::game_parameters::GameParameters;

#[test]
fn test_empty_app_has_no_players() {
    let mut app = App::new();
    app.update();
    assert_eq!(count_n_players(&app), 0);
}

#[test]
fn test_can_set_and_get_velocity() {
    let velocity = Vec2Bits::new(1.2f32.to_bits(), 3.4f32.to_bits());
    let mut app = create_app(velocity);
    app.update();
    assert_eq!(get_player_velocity(&app), velocity);
}

#[test]
fn test_create_app_has_a_player() {
    let velocity = Vec2Bits::new(0.0f32.to_bits(), 0.0f32.to_bits());
    let mut app = create_app(velocity);
    app.update();
    assert_eq!(count_n_players(&app), 1);
}

#[test]
fn test_player_starts_at_the_origin() {
    let velocity = Vec2Bits::new(0.0f32.to_bits(), 0.0f32.to_bits());
    let mut app = create_app(velocity);
    app.update();
    assert_eq!(
        get_player_position(&app),
        Vec2Bits::new(0.0f32.to_bits(), 0.0f32.to_bits())
    );
}

#[test]
fn test_get_player_size() {
    let velocity = Vec2Bits::new(0.0f32.to_bits(), 0.0f32.to_bits());
    let mut app = create_app(velocity);
    app.update();
    assert_eq!(
        get_player_size(&app),
        Vec2Bits::new(64.0f32.to_bits(), 32.0f32.to_bits())
    );
}

#[test]
fn test_player_moves() {
    let velocity = Vec2Bits::new(1.2f32.to_bits(), 3.4f32.to_bits());
    let mut app = create_app(velocity);
    app.update();
    assert_ne!(
        get_player_position(&app),
        Vec2Bits::new(0.0f32.to_bits(), 0.0f32.to_bits())
    );
}

#[test]
fn test_position_and_scale_after_one_tick() {
    let parameters = GameParameters {
        initial_player_position: Vec3Bits::new(
            0.0f32.to_bits(),
            0.0f32.to_bits(),
            0.0f32.to_bits(),
        ),
        initial_player_scale: Vec3Bits::new(
            100.0f32.to_bits(),
            20.0f32.to_bits(),
            1.0f32.to_bits(),
        ),
        initial_player_velocity: Vec2Bits::new(1.1f32.to_bits(), 2.2f32.to_bits()),
    };
    let mut app = create_app_with_parameters(parameters);
    app.update();
    let entity = app.player.unwrap();
    assert_eq!(
        entity.transform.translation,
        Vec3Bits::new(1.1f32.to_bits(), 2.2f32.to_bits(), 0.0f32.to_bits())
    );
    assert_eq!(
        entity.transform.scale,
        Vec3Bits::new(100.0f32.to_bits(), 20.0f32.to_bits(), 1.0f32.to_bits())
    );
}

#[test]
fn test_default_parameters_with_velocity_after_one_tick() {
    let velocity = Vec2Bits::new(1.2f32.to_bits(), 3.4f32.to_bits());
    let parameters = create_default_game_parameters_with_player_velocity(velocity);
    let mut app = create_app_with_parameters(parameters);
    app.update();
    let entity = app.player.unwrap();
    assert_eq!(
        entity.transform.translation,
        Vec3Bits::new(1.2f32.to_bits(), 3.4f32.to_bits(), 0.0f32.to_bits())
    );
}

#[test]
fn test_position_after_three_ticks_matches_float_sums() {
    let velocity = Vec2Bits::new(1.1f32.to_bits(), 2.2f32.to_bits());
    let mut app = create_app(velocity);
    app.update();
    app.update();
    app.update();
    let expected_x = ((0.0f32 + 1.1f32) + 1.1f32) + 1.1f32;
    let expected_y = ((0.0f32 + 2.2f32) + 2.2f32) + 2.2f32;
    assert_eq!(
        get_player_position(&app),
        Vec2Bits::new(expected_x.to_bits(), expected_y.to_bits())
    );
}

#[test]
fn test_negative_velocity_moves_backwards() {
    let parameters = GameParameters {
        initial_player_position: Vec3Bits::new(
            2.0f32.to_bits(),
            1.0f32.to_bits(),
            0.0f32.to_bits(),
        ),
        initial_player_scale: Vec3Bits::new(
            100.0f32.to_bits(),
            20.0f32.to_bits(),
            1.0f32.to_bits(),
        ),
        initial_player_velocity: Vec2Bits::new((-1.5f32).to_bits(), (-0.5f32).to_bits()),
    };
    let mut app = create_app_with_parameters(parameters);
    app.update();
    assert_eq!(
        get_player_position(&app),
        Vec2Bits::new(0.5f32.to_bits(), 0.5f32.to_bits())
    );
}

#[test]
fn test_zero_velocity_position_is_invariant() {
    let parameters = GameParameters {
        initial_player_position: Vec3Bits::new(
            5.5f32.to_bits(),
            (-3.25f32).to_bits(),
            7.0f32.to_bits(),
        ),
        initial_player_scale: Vec3Bits::new(
            100.0f32.to_bits(),
            20.0f32.to_bits(),
            1.0f32.to_bits(),
        ),
        initial_player_velocity: Vec2Bits::new(0.0f32.to_bits(), 0.0f32.to_bits()),
    };
    let mut app = create_app_with_parameters(parameters);
    app.update_n(10);
    let entity = app.player.unwrap();
    assert_eq!(
        entity.transform.translation,
        Vec3Bits::new(5.5f32.to_bits(), (-3.25f32).to_bits(), 7.0f32.to_bits())
    );
}

#[test]
fn test_update_n_matches_repeated_updates() {
    let velocity = Vec2Bits::new(0.25f32.to_bits(), 0.5f32.to_bits());
    let mut batched = create_app(velocity);
    batched.update_n(4);
    let mut stepped = create_app(velocity);
    stepped.update();
    stepped.update();
    stepped.update();
    stepped.update();
    assert_eq!(batched.player, stepped.player);
}

#[test]
fn test_empty_app_stays_empty_over_many_ticks() {
    let mut app = App::new();
    app.update_n(5);
    assert_eq!(count_n_players(&app), 0);
}
