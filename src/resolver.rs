use vstd::prelude::*;
use vstd::string::StringExecFns;
use crate::actor::{ActorAction, ActorAttributes, ActorDirection};
use crate::components::TileType;

verus! {

/// Kinds of sprite of a creature.
#[derive(Clone, Copy, Debug, PartialEq, Eq, Structural)]
pub enum PokemonSpriteType {
    NormalFront,
    NormalBack,
    ShinyFront,
    ShinyBack,
}

/// Directory name of a sprite kind.
pub open spec fn sprite_kind_dir(t: PokemonSpriteType) -> Seq<char> {
    match t {
        PokemonSpriteType::NormalFront => "normal-front"@,
        PokemonSpriteType::NormalBack => "normal-back"@,
        PokemonSpriteType::ShinyFront => "shiny-front"@,
        PokemonSpriteType::ShinyBack => "shiny-back"@,
    }
}

fn joined(prefix: &str, name: &str, suffix: &str) -> (r: String)
    ensures
        r@ == prefix@ + name@ + suffix@,
{
    let s = String::from_str(prefix);
    let s = s.concat(name);
    s.concat(suffix)
}

fn sprite_kind_name(t: &PokemonSpriteType) -> (r: &'static str)
    ensures
        r@ == sprite_kind_dir(*t),
{
    proof {
        reveal_strlit("normal-front");
        reveal_strlit("normal-back");
        reveal_strlit("shiny-front");
        reveal_strlit("shiny-back");
    }
    match t {
        PokemonSpriteType::NormalFront => "normal-front",
        PokemonSpriteType::NormalBack => "normal-back",
        PokemonSpriteType::ShinyFront => "shiny-front",
        PokemonSpriteType::ShinyBack => "shiny-back",
    }
}

/// Directory of a creature's animation frames:
/// `sprites/pokemon/<kind>/<name>`.
pub fn get_sprite_path(pokemon: &String, sprite_type: &PokemonSpriteType) -> (r: String)
    ensures
        r@ == "sprites/pokemon/"@ + sprite_kind_dir(*sprite_type) + "/"@ + pokemon@,
{
    let kind = sprite_kind_name(sprite_type);
    let dir = joined("sprites/pokemon/", kind, "/");
    dir.concat(pokemon.as_str())
}

/// The same path, for a sprite kind passed by value.
pub fn sprite_path(pokemon: &String, sprite_type: PokemonSpriteType) -> (r: String)
    ensures
        r@ == "sprites/pokemon/"@ + sprite_kind_dir(sprite_type) + "/"@ + pokemon@,
{
    get_sprite_path(pokemon, &sprite_type)
}

/// A creature's sprite directory in the flat layout: `sprites/<name>/<kind>`.
pub fn resolve_sprite_path(pokemon: &String, sprite_type: PokemonSpriteType) -> (r: String)
    ensures
        r@ == "sprites/"@ + pokemon@ + "/"@ + sprite_kind_dir(sprite_type),
{
    let kind = sprite_kind_name(&sprite_type);
    let dir = joined("sprites/", pokemon.as_str(), "/");
    dir.concat(kind)
}

/// Image of a ground tile, in the test data set.
pub fn get_tile_path(tile_type: &TileType) -> (r: String)
    ensures
        r@ == "/testdata/tiles/GreenPatch-1-16x16.png"@,
{
    match tile_type {
        TileType::GreenPatch => String::from_str("/testdata/tiles/GreenPatch-1-16x16.png"),
    }
}

/// Image of a ground tile, in the asset set.
pub fn tile_path(tile_type: TileType) -> (r: String)
    ensures
        r@ == "/tiles/GreenPatch-1-16x16.png"@,
{
    match tile_type {
        TileType::GreenPatch => String::from_str("/tiles/GreenPatch-1-16x16.png"),
    }
}

/// Directory of an actor's sprites.
pub open spec fn actor_dir(actor: Seq<char>) -> Seq<char> {
    "/testdata/sprites/actor/"@ + actor
}

/// Subdirectory of a facing; none for an unset facing.
pub open spec fn direction_segment(d: ActorDirection) -> Seq<char> {
    match d {
        ActorDirection::North => "/north"@,
        ActorDirection::South => "/south"@,
        ActorDirection::East => "/east"@,
        ActorDirection::West => "/west"@,
        ActorDirection::Unset => Seq::empty(),
    }
}

/// File name of a pose, without its extension.
pub open spec fn action_segment(a: ActorAction) -> Seq<char> {
    match a {
        ActorAction::Stand => "/stand"@,
        ActorAction::Walk1 => "/walk-1"@,
        ActorAction::Walk2 => "/walk-2"@,
    }
}

/// Directory of an actor's sprites: `/testdata/sprites/actor/<actor>`.
pub fn get_actor_dir(actor: &String) -> (r: String)
    ensures
        r@ == actor_dir(actor@),
{
    String::from_str("/testdata/sprites/actor/").concat(actor.as_str())
}

fn direction_name(d: ActorDirection) -> (r: &'static str)
    ensures
        r@ == direction_segment(d),
{
    proof {
        reveal_strlit("/north");
        reveal_strlit("/south");
        reveal_strlit("/east");
        reveal_strlit("/west");
        reveal_strlit("");
    }
    match d {
        ActorDirection::North => "/north",
        ActorDirection::South => "/south",
        ActorDirection::East => "/east",
        ActorDirection::West => "/west",
        ActorDirection::Unset => "",
    }
}

fn action_name(a: ActorAction) -> (r: &'static str)
    ensures
        r@ == action_segment(a),
{
    proof {
        reveal_strlit("/stand");
        reveal_strlit("/walk-1");
        reveal_strlit("/walk-2");
    }
    match a {
        ActorAction::Stand => "/stand",
        ActorAction::Walk1 => "/walk-1",
        ActorAction::Walk2 => "/walk-2",
    }
}

/// Image of an actor in a pose:
/// `/testdata/sprites/actor/<actor>/<facing>/<pose>.png`.
pub fn get_actor_path(actor: &String, attributes: &ActorAttributes) -> (r: String)
    ensures
        r@ == actor_dir(actor@) + direction_segment(attributes.direction) + action_segment(attributes.action)
            + ".png"@,
{
    let base = get_actor_dir(actor);
    let with_dir = base.concat(direction_name(attributes.direction));
    let with_action = with_dir.concat(action_name(attributes.action));
    with_action.concat(".png")
}

/// Facings an actor's sprite set may hold, in the order they are looked for.
pub open spec fn facing_order() -> Seq<ActorDirection> {
    seq![ActorDirection::North, ActorDirection::South, ActorDirection::East, ActorDirection::West]
}

/// Poses of a facing, in the order they are looked for.
pub open spec fn pose_order() -> Seq<ActorAction> {
    seq![ActorAction::Stand, ActorAction::Walk1, ActorAction::Walk2]
}

/// Every pose an actor's sprite set may hold: each facing in turn, each
/// with its three poses. A loader keeps those whose image exists.
pub fn get_actor_attr_candidates() -> (r: Vec<ActorAttributes>)
    ensures
        r@.len() == 12,
        forall|i: int|
            0 <= i < 12 ==> #[trigger] r@[i] == (ActorAttributes {
                direction: facing_order()[i / 3],
                action: pose_order()[i % 3],
            }),
{
    let mut r: Vec<ActorAttributes> = Vec::new();
    let directions = [ActorDirection::North, ActorDirection::South, ActorDirection::East, ActorDirection::West];
    let actions = [ActorAction::Stand, ActorAction::Walk1, ActorAction::Walk2];
    let mut d: usize = 0;
    while d < 4
        invariant
            d <= 4,
            directions@ == facing_order(),
            actions@ == pose_order(),
            r@.len() == 3 * d,
            forall|i: int|
                0 <= i < 3 * d ==> #[trigger] r@[i] == (ActorAttributes {
                    direction: facing_order()[i / 3],
                    action: pose_order()[i % 3],
                }),
        decreases 4 - d,
    {
        let mut a: usize = 0;
        while a < 3
            invariant
                d < 4,
                a <= 3,
                directions@ == facing_order(),
                actions@ == pose_order(),
                r@.len() == 3 * d + a,
                forall|i: int|
                    0 <= i < 3 * d + a ==> #[trigger] r@[i] == (ActorAttributes {
                        direction: facing_order()[i / 3],
                        action: pose_order()[i % 3],
                    }),
            decreases 3 - a,
        {
            r.push(ActorAttributes { direction: directions[d], action: actions[a] });
            assert((3 * d + a) / 3 == d as int && (3 * d + a) % 3 == a as int) by (nonlinear_arith)
                requires
                    a < 3,
            ;
            a = a + 1;
        }
        d = d + 1;
    }
    r
}

} // verus!
