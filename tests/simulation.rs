use scg::assets::{decode_image, AssetError};
use scg::component::{PositionComponent, TextComponent, VelocityComponent};
use scg::entity::{initialize_world, new_demo_world, Player, PlayerSpawnParams, Text, TextSpawnParams};
use scg::resource::{SoundManager, SpriteManager};
use scg::system::{
    boost_velocities, input_handle_system, logic_tick_system, query_moving, render_system,
    DrawCommand, FrameInput, StepError, WindowSize,
};

const PX: i64 = 1_000_000;
const PX_PER_S: i64 = 1_000;

fn position_of(world: &hecs::World, e: hecs::Entity) -> PositionComponent {
    *world.get::<&PositionComponent>(e).unwrap()
}

fn velocity_of(world: &hecs::World, e: hecs::Entity) -> VelocityComponent {
    *world.get::<&VelocityComponent>(e).unwrap()
}

fn player(world: &mut hecs::World, x: i64, y: i64, vx: i64, vy: i64) -> hecs::Entity {
    Player::new(world, PlayerSpawnParams { x, y, vx, vy })
}

#[test]
fn repeated_ticks_move_linearly() {
    let mut world = hecs::World::new();
    let a = player(&mut world, 3 * PX, -7 * PX, 250, -1_500);
    let b = player(&mut world, 0, 0, -40, 9);
    let dt: u32 = 16;
    let n: i64 = 37;
    for _ in 0..n {
        assert_eq!(logic_tick_system(&mut world, dt), Ok(()));
    }
    let pa = position_of(&world, a);
    assert_eq!(pa, PositionComponent { x: 3 * PX + 250 * 16 * n, y: -7 * PX - 1_500 * 16 * n });
    let pb = position_of(&world, b);
    assert_eq!(pb, PositionComponent { x: -40 * 16 * n, y: 9 * 16 * n });
    assert_eq!(velocity_of(&world, a), VelocityComponent { x: 250, y: -1_500 });
}

#[test]
fn tick_of_zero_changes_nothing() {
    let mut world = hecs::World::new();
    let a = player(&mut world, 5, 6, 7, 8);
    assert_eq!(logic_tick_system(&mut world, 0), Ok(()));
    assert_eq!(position_of(&world, a), PositionComponent { x: 5, y: 6 });
}

#[test]
fn tick_leaves_still_entities_alone() {
    let mut world = hecs::World::new();
    let t = Text::new(&mut world, TextSpawnParams { x: 20 * PX, y: 100 * PX });
    let a = player(&mut world, 0, 0, 1_000, 2_000);
    assert_eq!(logic_tick_system(&mut world, 1_000), Ok(()));
    assert_eq!(position_of(&world, t), PositionComponent { x: 20 * PX, y: 100 * PX });
    assert_eq!(position_of(&world, a), PositionComponent { x: 1_000_000, y: 2_000_000 });
}

#[test]
fn tick_out_of_range_moves_nobody() {
    let mut world = hecs::World::new();
    let a = player(&mut world, 0, 0, 10, 10);
    let b = player(&mut world, i64::MAX - 5, 0, 1, 0);
    assert_eq!(logic_tick_system(&mut world, 10), Err(StepError::PositionOutOfRange));
    assert_eq!(position_of(&world, a), PositionComponent { x: 0, y: 0 });
    assert_eq!(position_of(&world, b), PositionComponent { x: i64::MAX - 5, y: 0 });
}

#[test]
fn boost_doubles_every_velocity() {
    let mut world = hecs::World::new();
    let a = player(&mut world, 0, 0, 3, -4);
    let v_only = world.spawn((VelocityComponent { x: 5, y: 6 },));
    assert_eq!(boost_velocities(&mut world), Ok(()));
    assert_eq!(velocity_of(&world, a), VelocityComponent { x: 6, y: -8 });
    assert_eq!(velocity_of(&world, v_only), VelocityComponent { x: 10, y: 12 });
    assert_eq!(position_of(&world, a), PositionComponent { x: 0, y: 0 });
}

#[test]
fn boost_out_of_range_changes_nothing() {
    let mut world = hecs::World::new();
    let a = player(&mut world, 0, 0, 3, 4);
    let b = player(&mut world, 0, 0, i64::MIN, 0);
    assert_eq!(boost_velocities(&mut world), Err(StepError::VelocityOutOfRange));
    assert_eq!(velocity_of(&world, a), VelocityComponent { x: 3, y: 4 });
    assert_eq!(velocity_of(&world, b), VelocityComponent { x: i64::MIN, y: 0 });
}

#[test]
fn query_finds_only_entities_with_position_and_velocity() {
    let mut world = hecs::World::new();
    let moving = player(&mut world, 1, 2, 3, 4);
    let _still = world.spawn((PositionComponent { x: 9, y: 9 },));
    assert_eq!(query_moving(&mut world), vec![moving]);
}

#[test]
fn query_of_empty_world_is_empty() {
    let mut world = hecs::World::new();
    assert!(query_moving(&mut world).is_empty());
}

#[test]
fn initialize_world_spawns_player_and_text() {
    let mut world = hecs::World::new();
    let (p, t) = initialize_world(&mut world);
    assert_ne!(p, t);
    assert_eq!(world.len(), 2);
    assert_eq!(position_of(&world, p), PositionComponent { x: 100 * PX, y: 100 * PX });
    assert_eq!(velocity_of(&world, p), VelocityComponent { x: 10 * PX_PER_S, y: 10 * PX_PER_S });
    assert_eq!(position_of(&world, t), PositionComponent { x: 20 * PX, y: 100 * PX });
    assert!(world.get::<&TextComponent>(t).is_ok());
    assert!(world.get::<&VelocityComponent>(t).is_err());
    assert_eq!(query_moving(&mut world), vec![p]);
}

#[test]
fn tick_boost_tick_scenario() {
    let mut world = hecs::World::new();
    let sounds: SoundManager<()> = SoundManager::new();
    let e = player(&mut world, 100 * PX, 100 * PX, 10 * PX_PER_S, 10 * PX_PER_S);
    assert_eq!(logic_tick_system(&mut world, 500), Ok(()));
    assert_eq!(position_of(&world, e), PositionComponent { x: 105 * PX, y: 105 * PX });
    let input = FrameInput { boost: true, hit: false, resize: false };
    let response = input_handle_system(&mut world, &sounds, input);
    assert_eq!(response.boost, Some(Ok(())));
    assert_eq!(velocity_of(&world, e), VelocityComponent { x: 20 * PX_PER_S, y: 20 * PX_PER_S });
    assert_eq!(logic_tick_system(&mut world, 500), Ok(()));
    assert_eq!(position_of(&world, e), PositionComponent { x: 115 * PX, y: 115 * PX });
}

#[test]
fn input_without_events_does_nothing() {
    let mut world = hecs::World::new();
    let sounds: SoundManager<()> = SoundManager::new();
    let e = player(&mut world, 0, 0, 7, 7);
    let input = FrameInput { boost: false, hit: false, resize: false };
    let response = input_handle_system(&mut world, &sounds, input);
    assert_eq!(response.boost, None);
    assert_eq!(response.sound, None);
    assert_eq!(response.resize, None);
    assert_eq!(velocity_of(&world, e), VelocityComponent { x: 7, y: 7 });
}

#[test]
fn input_hit_and_resize() {
    let mut world = hecs::World::new();
    let mut sounds: SoundManager<()> = SoundManager::new();
    let input = FrameInput { boost: false, hit: true, resize: true };
    let response = input_handle_system(&mut world, &sounds, input);
    assert_eq!(response.sound, None);
    assert_eq!(response.resize, Some(WindowSize { width: 1366, height: 768 }));
    let loaded: Result<bool, ()> = sounds.load_sound("Hit", || Ok(vec![1, 2, 3]));
    assert_eq!(loaded, Ok(true));
    let response = input_handle_system(&mut world, &sounds, input);
    let request = response.sound.unwrap();
    assert_eq!(request.data, vec![1, 2, 3]);
    assert!(!request.looped);
    assert_eq!(request.volume, 1000);
    assert!(!request.keep_handle);
}

const ONE_PIXEL_PNG: [u8; 70] = [
    0x89, 0x50, 0x4e, 0x47, 0x0d, 0x0a, 0x1a, 0x0a, 0x00, 0x00, 0x00, 0x0d, 0x49, 0x48, 0x44, 0x52,
    0x00, 0x00, 0x00, 0x01, 0x00, 0x00, 0x00, 0x01, 0x08, 0x06, 0x00, 0x00, 0x00, 0x1f, 0x15, 0xc4,
    0x89, 0x00, 0x00, 0x00, 0x0d, 0x49, 0x44, 0x41, 0x54, 0x78, 0x9c, 0x63, 0xf8, 0xcf, 0xc0, 0xf0,
    0x1f, 0x00, 0x05, 0x00, 0x01, 0xff, 0x89, 0x99, 0x3d, 0x1d, 0x00, 0x00, 0x00, 0x00, 0x49, 0x45,
    0x4e, 0x44, 0xae, 0x42, 0x60, 0x82,
];

#[test]
fn texture_scenario_falls_back_to_circle() {
    let mut sprites: SpriteManager<macroquad::texture::Image> = SpriteManager::new();
    let loaded = sprites.load_texture("mushroom", || decode_image(&ONE_PIXEL_PNG));
    assert!(matches!(loaded, Ok(true)));
    let image = sprites.get_texture("mushroom").unwrap();
    assert_eq!((image.width, image.height), (1, 1));

    let mut world = hecs::World::new();
    let at = PositionComponent { x: 4 * PX, y: 2 * PX };
    world.spawn((at,));
    let draws = render_system(&mut world, &sprites, "mushroom2");
    assert_eq!(draws, vec![DrawCommand::Circle { at, radius: 10 }, DrawCommand::PositionLabel { value: at }]);
    let draws = render_system(&mut world, &sprites, "mushroom");
    assert_eq!(draws, vec![DrawCommand::Sprite { at }, DrawCommand::PositionLabel { value: at }]);
}

#[test]
fn render_draws_greeting_for_text_entities_only() {
    let sprites: SpriteManager<()> = SpriteManager::new();
    let mut world = hecs::World::new();
    let at = PositionComponent { x: 20 * PX, y: 100 * PX };
    Text::new(&mut world, TextSpawnParams { x: at.x, y: at.y });
    let draws = render_system(&mut world, &sprites, "mushroom");
    assert_eq!(
        draws,
        vec![
            DrawCommand::Circle { at, radius: 10 },
            DrawCommand::PositionLabel { value: at },
            DrawCommand::Greeting { at },
        ]
    );
    let _ = world.spawn((VelocityComponent { x: 1, y: 1 },));
    assert_eq!(render_system(&mut world, &sprites, "mushroom").len(), 3);
}

#[test]
fn render_covers_every_positioned_entity() {
    let sprites: SpriteManager<()> = SpriteManager::new();
    let mut world = hecs::World::new();
    initialize_world(&mut world);
    player(&mut world, 1, 1, 0, 0);
    let draws = render_system(&mut world, &sprites, "mushroom");
    let circles = draws.iter().filter(|d| matches!(d, DrawCommand::Circle { .. })).count();
    let labels = draws.iter().filter(|d| matches!(d, DrawCommand::PositionLabel { .. })).count();
    let greetings = draws.iter().filter(|d| matches!(d, DrawCommand::Greeting { .. })).count();
    assert_eq!((circles, labels, greetings), (3, 3, 1));
}

#[test]
fn decode_rejects_bytes_that_are_no_image() {
    assert!(matches!(decode_image(&ONE_PIXEL_PNG[..40]), Err(AssetError::Decode)));
    assert!(matches!(decode_image(&[]), Err(AssetError::Decode)));
    let mut sprites: SpriteManager<macroquad::texture::Image> = SpriteManager::new();
    let loaded = sprites.load_texture("broken", || decode_image(b"not an image"));
    assert!(matches!(loaded, Err(AssetError::Decode)));
    assert!(sprites.get_texture("broken").is_none());
    let image = decode_image(&ONE_PIXEL_PNG).unwrap();
    assert_eq!(image.bytes, vec![0xff, 0x00, 0x00, 0xff]);
}

#[test]
fn new_demo_world_holds_player_and_text() {
    let (mut world, p, t) = new_demo_world();
    assert_ne!(p, t);
    assert_eq!(world.len(), 2);
    assert_eq!(position_of(&world, p), PositionComponent { x: 100 * PX, y: 100 * PX });
    assert_eq!(position_of(&world, t), PositionComponent { x: 20 * PX, y: 100 * PX });
    assert_eq!(query_moving(&mut world), vec![p]);
}

#[test]
fn spawn_stores_reserved_entities_without_components() {
    let mut world = hecs::World::new();
    let reserved = world.reserve_entity();
    assert_eq!(world.len(), 0);
    let p = player(&mut world, 0, 0, 1, 1);
    assert_ne!(p, reserved);
    assert_eq!(world.len(), 2);
    assert!(world.contains(reserved));
    assert!(world.get::<&PositionComponent>(reserved).is_err());
    assert_eq!(query_moving(&mut world), vec![p]);
    let sprites: SpriteManager<()> = SpriteManager::new();
    assert_eq!(render_system(&mut world, &sprites, "mushroom").len(), 2);
    assert_eq!(logic_tick_system(&mut world, 1_000), Ok(()));
    assert_eq!(position_of(&world, p), PositionComponent { x: 1_000, y: 1_000 });
}

#[test]
fn queries_leave_the_world_unchanged() {
    let mut world = hecs::World::new();
    let p = player(&mut world, 3, 4, 5, 6);
    let before = world.len();
    let _ = query_moving(&mut world);
    let sprites: SpriteManager<()> = SpriteManager::new();
    let _ = render_system(&mut world, &sprites, "x");
    assert_eq!(world.len(), before);
    assert_eq!(position_of(&world, p), PositionComponent { x: 3, y: 4 });
    assert_eq!(velocity_of(&world, p), VelocityComponent { x: 5, y: 6 });
}
