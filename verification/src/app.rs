//! The application model: one player entity, spawned once during the startup
//! phase and moved by its velocity on every update tick.

use vstd::prelude::*;

use crate::float_bits::add_bits;
use crate::float_bits::add_single_bits;
use crate::float_bits::is_nan_bits;
use crate::float_bits::Vec2Bits;
use crate::float_bits::Vec3Bits;
use crate::float_bits::BITS_NEGATIVE_ZERO;
use crate::float_bits::BITS_SIXTY_FOUR;
use crate::float_bits::BITS_THIRTY_TWO;
use crate::float_bits::BITS_ZERO;
use crate::game_parameters::GameParameters;

verus! {

/// Player state that the transform does not carry: the per-tick displacement.
#[derive(Clone, Copy, Debug, PartialEq, Eq, Structural)]
pub struct Player {
    pub velocity: Vec2Bits,
}

/// The engine-style transform attached to the player: where it is and how
/// large it is drawn.
#[derive(Clone, Copy, Debug, PartialEq, Eq, Structural)]
pub struct Transform {
    pub translation: Vec3Bits,
    pub scale: Vec3Bits,
}

/// The one player entity: its transform and its player state.
#[derive(Clone, Copy, Debug, PartialEq, Eq, Structural)]
pub struct PlayerEntity {
    pub transform: Transform,
    pub player: Player,
}

/// The application: the player-spawn operation that registration recorded (if
/// any), whether the startup phase has run, and the player entity itself,
/// held as a uniquely owned value so that more than one player is impossible
/// by construction.
#[derive(Clone, Copy, Debug)]
pub struct App {
    /// The configuration the registered startup operation will spawn from;
    /// `None` when no player-spawn operation was registered.
    pub registered_spawn: Option<GameParameters>,
    /// Whether the one-time startup phase has already run.
    pub startup_done: bool,
    /// The player entity, present exactly when a registered startup
    /// operation has run.
    pub player: Option<PlayerEntity>,
}

/// The entity a startup operation spawns from a configuration: a transform
/// with the configured translation and scale, and the configured velocity.
pub open spec fn spawned_player(p: GameParameters) -> PlayerEntity {
    PlayerEntity {
        transform: Transform {
            translation: p.initial_player_position,
            scale: p.initial_player_scale,
        },
        player: Player { velocity: p.initial_player_velocity },
    }
}

/// One tick's displacement of a translation: the velocity is added to the x
/// and y components, the z component is untouched.
pub open spec fn moved_translation(t: Vec3Bits, v: Vec2Bits) -> Vec3Bits {
    Vec3Bits { x: add_bits(t.x, v.x), y: add_bits(t.y, v.y), z: t.z }
}

/// One tick's effect on the player entity: only the translation changes.
pub open spec fn moved_player(e: PlayerEntity) -> PlayerEntity {
    PlayerEntity {
        transform: Transform {
            translation: moved_translation(e.transform.translation, e.player.velocity),
            scale: e.transform.scale,
        },
        player: e.player,
    }
}

/// The startup phase: the first time it runs, the registered player-spawn
/// operation (if any) runs once; afterwards it is a no-op.
pub open spec fn startup_phase(a: App) -> App {
    if a.startup_done {
        a
    } else {
        App {
            registered_spawn: a.registered_spawn,
            startup_done: true,
            player: match a.registered_spawn {
                Some(p) => Some(spawned_player(p)),
                None => a.player,
            },
        }
    }
}

/// The update phase of one tick: the player, if present, moves by its
/// velocity; nothing else changes.
pub open spec fn update_phase(a: App) -> App {
    App {
        registered_spawn: a.registered_spawn,
        startup_done: a.startup_done,
        player: match a.player {
            Some(e) => Some(moved_player(e)),
            None => None,
        },
    }
}

/// `n` update ticks in a row.
pub open spec fn ticks(a: App, n: nat) -> App
    decreases n,
{
    if n == 0 {
        a
    } else {
        update_phase(ticks(a, (n - 1) as nat))
    }
}

/// An application as registration left it: the startup phase has not run and
/// no entity exists yet.
pub open spec fn initial_app(registered_spawn: Option<GameParameters>) -> App {
    App { registered_spawn, startup_done: false, player: None }
}

/// How many player entities exist. The player is a uniquely owned value, so
/// this is zero or one.
pub open spec fn count_players(a: App) -> nat {
    match a.player {
        Some(_) => 1,
        None => 0,
    }
}

/// The configuration the player-only constructor `create_app` registers:
/// spawn at the origin with a sixty-four by thirty-two sprite scale and the
/// given velocity.
pub open spec fn sprite_parameters(velocity: Vec2Bits) -> GameParameters {
    GameParameters {
        initial_player_position: Vec3Bits { x: BITS_ZERO, y: BITS_ZERO, z: BITS_ZERO },
        initial_player_scale: Vec3Bits {
            x: BITS_SIXTY_FOUR,
            y: BITS_THIRTY_TWO,
            z: BITS_ZERO,
        },
        initial_player_velocity: velocity,
    }
}

/// Spawns the player entity a configuration describes.
pub fn add_player(p: GameParameters) -> (e: PlayerEntity)
    ensures
        e == spawned_player(p),
{
    PlayerEntity {
        transform: Transform {
            translation: p.initial_player_position,
            scale: p.initial_player_scale,
        },
        player: Player { velocity: p.initial_player_velocity },
    }
}

/// Whether a translation is safe for the zero-velocity invariance clauses
/// below: the horizontal components encode neither a NaN nor a negative
/// zero, so adding positive zero to them returns them unchanged.
pub open spec fn plain_horizontal(t: Vec3Bits) -> bool {
    &&& t.x != BITS_NEGATIVE_ZERO
    &&& !is_nan_bits(t.x)
    &&& t.y != BITS_NEGATIVE_ZERO
    &&& !is_nan_bits(t.y)
}

/// Moves the player entity one tick: adds the velocity to the horizontal
/// translation components and leaves everything else alone. When the
/// velocity is zero and the translation has plain horizontal components, the
/// entity comes back unchanged.
pub fn move_player(e: PlayerEntity) -> (r: PlayerEntity)
    ensures
        r == moved_player(e),
        e.player.velocity == (Vec2Bits { x: BITS_ZERO, y: BITS_ZERO })
            && plain_horizontal(e.transform.translation) ==> r == e,
{
    let x = add_single_bits(e.transform.translation.x, e.player.velocity.x);
    let y = add_single_bits(e.transform.translation.y, e.player.velocity.y);
    PlayerEntity {
        transform: Transform {
            translation: Vec3Bits { x, y, z: e.transform.translation.z },
            scale: e.transform.scale,
        },
        player: e.player,
    }
}

impl App {
    /// An application with nothing registered: no startup operation, hence
    /// never a player.
    pub fn new() -> (a: App)
        ensures
            a == initial_app(None),
    {
        App { registered_spawn: None, startup_done: false, player: None }
    }

    /// One engine frame: the first call runs the startup phase (spawning the
    /// player when a spawn operation is registered), and every call then
    /// runs one update tick. When the player's velocity is zero and its
    /// translation has plain horizontal components, the tick leaves the
    /// player exactly as the startup phase left it.
    pub fn update(&mut self)
        ensures
            *final(self) == update_phase(startup_phase(*old(self))),
            (startup_phase(*old(self)).player matches Some(e)
                && e.player.velocity == (Vec2Bits { x: BITS_ZERO, y: BITS_ZERO })
                && plain_horizontal(e.transform.translation)) ==> final(self).player
                == startup_phase(*old(self)).player,
    {
        if !self.startup_done {
            self.startup_done = true;
            match self.registered_spawn {
                Some(p) => {
                    self.player = Some(add_player(p));
                },
                None => {},
            }
        }
        match self.player {
            Some(e) => {
                self.player = Some(move_player(e));
            },
            None => {},
        }
    }

    /// `n` engine frames in a row: the startup phase once (on the first
    /// frame that ever ran), then one update tick per frame. When the
    /// player's velocity is zero and its translation has plain horizontal
    /// components, its position is invariant across any number of ticks.
    pub fn update_n(&mut self, n: u64)
        ensures
            n == 0 ==> *final(self) == *old(self),
            n > 0 ==> *final(self) == ticks(startup_phase(*old(self)), n as nat),
            n > 0 ==> ((startup_phase(*old(self)).player matches Some(e)
                && e.player.velocity == (Vec2Bits { x: BITS_ZERO, y: BITS_ZERO })
                && plain_horizontal(e.transform.translation)) ==> final(self).player
                == startup_phase(*old(self)).player),
    {
        let ghost s0 = startup_phase(*old(self));
        let mut i: u64 = 0;
        while i < n
            invariant
                i <= n,
                s0 == startup_phase(*old(self)),
                i == 0 ==> *self == *old(self),
                i > 0 ==> *self == ticks(s0, i as nat) && self.startup_done,
                i > 0 ==> ((s0.player matches Some(e)
                    && e.player.velocity == (Vec2Bits { x: BITS_ZERO, y: BITS_ZERO })
                    && plain_horizontal(e.transform.translation)) ==> self.player == s0.player),
            decreases n - i,
        {
            proof {
                assert(ticks(s0, 0) == s0);
                assert(ticks(s0, (i + 1) as nat) == update_phase(ticks(s0, i as nat)));
                if i > 0 {
                    assert(startup_phase(*self) == *self);
                }
            }
            self.update();
            i = i + 1;
        }
    }
}

/// Builds the game application: a startup operation spawning the player at
/// the origin with the sprite scale and the given velocity, and the per-tick
/// motion update. The engine loop is not started.
pub fn create_app(velocity: Vec2Bits) -> (a: App)
    ensures
        a == initial_app(Some(sprite_parameters(velocity))),
{
    App {
        registered_spawn: Some(GameParameters {
            initial_player_position: Vec3Bits { x: BITS_ZERO, y: BITS_ZERO, z: BITS_ZERO },
            initial_player_scale: Vec3Bits {
                x: BITS_SIXTY_FOUR,
                y: BITS_THIRTY_TWO,
                z: BITS_ZERO,
            },
            initial_player_velocity: velocity,
        }),
        startup_done: false,
        player: None,
    }
}

/// Builds an application from a full configuration record: a startup
/// operation spawning the player it describes, and the per-tick motion
/// update. The engine loop is not started.
pub fn create_app_with_parameters(parameters: GameParameters) -> (a: App)
    ensures
        a == initial_app(Some(parameters)),
{
    App { registered_spawn: Some(parameters), startup_done: false, player: None }
}

/// How many player entities the application holds.
pub fn count_n_players(a: &App) -> (n: usize)
    ensures
        n == count_players(*a),
{
    match a.player {
        Some(_) => 1,
        None => 0,
    }
}

/// The player's horizontal position. The lookup expects exactly one player.
pub fn get_player_position(a: &App) -> (p: Vec2Bits)
    requires
        a.player is Some,
    ensures
        a.player matches Some(e) && p
            == (Vec2Bits { x: e.transform.translation.x, y: e.transform.translation.y }),
{
    let e = a.player.unwrap();
    Vec2Bits { x: e.transform.translation.x, y: e.transform.translation.y }
}

/// The player's horizontal scale. The lookup expects exactly one player.
pub fn get_player_size(a: &App) -> (s: Vec2Bits)
    requires
        a.player is Some,
    ensures
        a.player matches Some(e) && s
            == (Vec2Bits { x: e.transform.scale.x, y: e.transform.scale.y }),
{
    let e = a.player.unwrap();
    Vec2Bits { x: e.transform.scale.x, y: e.transform.scale.y }
}

/// The player's velocity. The lookup expects exactly one player.
pub fn get_player_velocity(a: &App) -> (v: Vec2Bits)
    requires
        a.player is Some,
    ensures
        a.player matches Some(e) && v == e.player.velocity,
{
    let e = a.player.unwrap();
    e.player.velocity
}

/// A translation displaced `n` ticks in a row by one velocity.
pub open spec fn displaced(t: Vec3Bits, v: Vec2Bits, n: nat) -> Vec3Bits
    decreases n,
{
    if n == 0 {
        t
    } else {
        moved_translation(displaced(t, v, (n - 1) as nat), v)
    }
}

/// The states the constructors and `update` can reach: a player entity
/// exists exactly when a spawn operation is registered and the startup phase
/// has run. The constructors establish it and `update` preserves it.
pub open spec fn wf(a: App) -> bool {
    (a.player is Some) <==> (a.startup_done && a.registered_spawn is Some)
}

/// One engine frame preserves well-formedness.
pub proof fn lemma_frame_preserves_wf(a: App)
    requires
        wf(a),
    ensures
        wf(update_phase(startup_phase(a))),
{
}

/// The player is a uniquely owned value, so more than one player entity is
/// impossible in any state whatsoever.
pub proof fn lemma_at_most_one_player(a: App)
    ensures
        count_players(a) <= 1,
{
}

/// After one startup phase of an application whose player-spawn operation is
/// registered, exactly one player entity exists.
pub proof fn lemma_startup_spawns_one_player(a: App)
    requires
        a.registered_spawn is Some,
        !a.startup_done,
    ensures
        count_players(startup_phase(a)) == 1,
{
}

/// Immediately after the startup phase, before any update tick, the player's
/// position and scale equal the configured initial position and scale, and
/// its velocity is the configured initial velocity.
pub proof fn lemma_startup_initial_transform(p: GameParameters)
    ensures
        startup_phase(initial_app(Some(p))).player matches Some(e)
            && e.transform.translation == p.initial_player_position
            && e.transform.scale == p.initial_player_scale
            && e.player.velocity == p.initial_player_velocity,
{
}

/// After the startup phase and `n` update ticks, the player still exists,
/// its position is the initial position displaced `n` times by the
/// configured velocity -- in particular its z component is untouched -- and
/// its scale and velocity are still the configured ones.
pub proof fn lemma_position_after_ticks(p: GameParameters, n: nat)
    ensures
        ticks(startup_phase(initial_app(Some(p))), n).player matches Some(e)
            && e.transform.translation == displaced(
            p.initial_player_position,
            p.initial_player_velocity,
            n,
        )
            && e.transform.translation.z == p.initial_player_position.z
            && e.transform.scale == p.initial_player_scale
            && e.player.velocity == p.initial_player_velocity,
    decreases n,
{
    if n > 0 {
        lemma_position_after_ticks(p, (n - 1) as nat);
    }
}

/// Update ticks never change the registered operations, the startup flag,
/// whether a player exists, or the player's scale and velocity. In
/// particular the scale is invariant across any number of ticks, whatever
/// the velocity.
pub proof fn lemma_ticks_preserve_scale(a: App, n: nat)
    ensures
        ticks(a, n).registered_spawn == a.registered_spawn,
        ticks(a, n).startup_done == a.startup_done,
        a.player is None ==> ticks(a, n).player is None,
        a.player matches Some(e) ==> ticks(a, n).player matches Some(r)
            && r.transform.scale == e.transform.scale
            && r.player.velocity == e.player.velocity,
    decreases n,
{
    if n > 0 {
        lemma_ticks_preserve_scale(a, (n - 1) as nat);
    }
}

/// An application with no registered player-spawn operation holds zero
/// player entities after the startup phase and any number of ticks.
pub proof fn lemma_no_spawn_no_players(n: nat)
    ensures
        count_players(ticks(startup_phase(initial_app(None)), n)) == 0,
{
    lemma_ticks_preserve_scale(startup_phase(initial_app(None)), n);
}

} // verus!
