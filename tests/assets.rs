use pokedriver::actor::{ActorAction, ActorAttributes, ActorAttrs, ActorDirection};
use pokedriver::components::TileType;
use pokedriver::resolver::{
    get_actor_attr_candidates, get_actor_dir, get_actor_path, get_sprite_path, get_tile_path, resolve_sprite_path, sprite_path,
    tile_path, PokemonSpriteType,
};
use pokedriver::tile::{TileAttrs, TileClass};
use pokedriver::viewport::{Point, ViewPort};

#[test]
fn actor_sprite_indices() {
    let a = ActorAttrs::new();
    assert_eq!(a.to_sprite_index(), 3);
    let cases = [
        (ActorDirection::North, ActorAction::Stand, 0),
        (ActorDirection::North, ActorAction::Walk2, 2),
        (ActorDirection::South, ActorAction::Walk1, 4),
        (ActorDirection::East, ActorAction::Walk1, 7),
        (ActorDirection::West, ActorAction::Walk2, 11),
        (ActorDirection::Unset, ActorAction::Walk1, 1),
    ];
    for (direction, action, index) in cases {
        assert_eq!(ActorAttributes { direction, action }.to_sprite_index(), index);
    }
}

#[test]
fn tile_sprite_indices() {
    assert_eq!(TileAttrs::new(None, 5).to_sprite_index(), 0);
    assert_eq!(TileAttrs::new(Some(TileClass::GreenPatch), 2).to_sprite_index(), 2);
}

#[test]
fn sprite_paths() {
    let p = "pikachu".to_string();
    assert_eq!(get_sprite_path(&p, &PokemonSpriteType::NormalFront), "sprites/pokemon/normal-front/pikachu");
    assert_eq!(get_sprite_path(&p, &PokemonSpriteType::ShinyBack), "sprites/pokemon/shiny-back/pikachu");
    assert_eq!(sprite_path(&p, PokemonSpriteType::NormalBack), "sprites/pokemon/normal-back/pikachu");
    assert_eq!(resolve_sprite_path(&p, PokemonSpriteType::ShinyFront), "sprites/pikachu/shiny-front");
}

#[test]
fn tile_paths() {
    assert_eq!(get_tile_path(&TileType::GreenPatch), "/testdata/tiles/GreenPatch-1-16x16.png");
    assert_eq!(tile_path(TileType::GreenPatch), "/tiles/GreenPatch-1-16x16.png");
}

#[test]
fn viewport_moves_in_scaled_units() {
    let mut v = ViewPort::new().init(800, 600).origin(Point { x: 10, y: 20 }).padding(16, 16);
    assert_eq!((v.pad_x, v.pad_y, v.scale_x, v.scale_y), (48, 48, 3, 3));
    v.move_origin(2, -1);
    assert_eq!(v.origin, Point { x: 16, y: 17 });
    assert_eq!(v.translate(Point { x: 100, y: 100 }), Point { x: 84, y: 83 });
}

#[test]
fn viewport_culls_outside_points() {
    let v = ViewPort::new().init(100, 50).padding(4, 2);
    assert!(v.within_bounds(Point { x: 0, y: 0 }));
    assert!(v.within_bounds(Point { x: 100, y: 50 }));
    assert!(!v.within_bounds(Point { x: 101, y: 0 }));
    assert!(v.within_bounds(Point { x: -12, y: 0 }));
    assert!(!v.within_bounds(Point { x: -13, y: 0 }));
    assert!(v.within_bounds(Point { x: 0, y: -6 }));
    assert!(!v.within_bounds(Point { x: 0, y: -7 }));
    assert!(!v.within_bounds(Point { x: 0, y: 51 }));
    assert!(v.within_bounds(Point { x: i64::MAX, y: 0 }) == false);
}

#[test]
fn actor_paths() {
    let brendan = "brendan".to_string();
    let a = ActorAttributes { direction: ActorDirection::West, action: ActorAction::Walk2 };
    assert_eq!(get_actor_path(&brendan, &a), "/testdata/sprites/actor/brendan/west/walk-2.png");
    let b = ActorAttributes { direction: ActorDirection::Unset, action: ActorAction::Stand };
    assert_eq!(get_actor_path(&brendan, &b), "/testdata/sprites/actor/brendan/stand.png");
    assert_eq!(get_actor_dir(&brendan), "/testdata/sprites/actor/brendan");
}

#[test]
fn actor_pose_candidates_in_search_order() {
    let c = get_actor_attr_candidates();
    assert_eq!(c.len(), 12);
    assert_eq!(c[0], ActorAttributes { direction: ActorDirection::North, action: ActorAction::Stand });
    assert_eq!(c[4], ActorAttributes { direction: ActorDirection::South, action: ActorAction::Walk1 });
    assert_eq!(c[11], ActorAttributes { direction: ActorDirection::West, action: ActorAction::Walk2 });
}

#[test]
fn viewport_range_check() {
    let v = ViewPort::new().init(800, 600);
    assert!(v.is_in_range());
    assert!(!v.origin(Point { x: i64::MAX, y: 0 }).is_in_range());
}
