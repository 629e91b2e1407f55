//! A small typed entity store: a growing vector of slots, each holding an
//! entity's components.  Despawning clears a slot; identifiers are never
//! reused, and despawning an already-cleared or unknown identifier is a
//! tolerated no-op.

use vstd::prelude::*;

use crate::attack::AttackMove;
use crate::attack::AttackView;
use crate::attack::attack_view;
use crate::attack::Sprite;
use crate::boss::BossMoveView;
use crate::boss::BossMoves;
use crate::boss::boss_views;
use crate::cpx::Rect;
use crate::cpx::Transform2D;
use crate::health::Hitbox;
use crate::health::Hitpoint;
use crate::motion::MoveParams;
use crate::moves::Movement;
use crate::moves::Moves;
use crate::moves::Wanderable;
use crate::timer::Cooldown;

verus! {

/// An on-screen caption with its alignment.
#[derive(Debug)]
pub enum Text {
    Left(String),
    Center(String),
    Right(String),
}

impl Text {
    /// The caption's characters, whatever the alignment.
    pub fn as_ref(&self) -> (r: &String)
        ensures
            *self matches Text::Left(s) ==> r@ == s@,
            *self matches Text::Center(s) ==> r@ == s@,
            *self matches Text::Right(s) ==> r@ == s@,
    {
        match self {
            Text::Left(s) => s,
            Text::Center(s) => s,
            Text::Right(s) => s,
        }
    }
}

/// One entity: category markers and optional components.
#[derive(Debug)]
pub struct Entity {
    pub player: bool,
    pub controllable: bool,
    pub enemy: bool,
    pub boss: bool,
    pub bullet: bool,
    pub die_offscreen: bool,
    pub been_on_screen: Option<bool>,
    pub transform: Option<Transform2D>,
    pub sprite: Option<Sprite>,
    pub hitbox: Option<Hitbox>,
    pub move_params: Option<MoveParams>,
    pub attack: Option<AttackMove>,
    pub moves: Option<Moves>,
    pub boss_moves: Option<BossMoves>,
    pub hitpoint: Option<Hitpoint>,
    pub cooldown: Option<Cooldown>,
    pub health_bar: Option<Rect>,
    pub wanderable: Option<Wanderable>,
    pub text: Option<Text>,
}

impl Entity {
    /// An entity with no markers and no components.
    pub fn empty() -> (r: Entity)
        ensures
            !r.player,
            !r.controllable,
            !r.enemy,
            !r.boss,
            !r.bullet,
            !r.die_offscreen,
            r.been_on_screen is None,
            r.transform is None,
            r.sprite is None,
            r.hitbox is None,
            r.move_params is None,
            r.attack is None,
            r.moves is None,
            r.boss_moves is None,
            r.hitpoint is None,
            r.cooldown is None,
            r.health_bar is None,
            r.wanderable is None,
            r.text is None,
    {
        Entity {
            player: false,
            controllable: false,
            enemy: false,
            boss: false,
            bullet: false,
            die_offscreen: false,
            been_on_screen: None,
            transform: None,
            sprite: None,
            hitbox: None,
            move_params: None,
            attack: None,
            moves: None,
            boss_moves: None,
            hitpoint: None,
            cooldown: None,
            health_bar: None,
            wanderable: None,
            text: None,
        }
    }
}

/// An on-screen caption as specifications see it.
pub ghost enum TextView {
    Left(Seq<char>),
    Center(Seq<char>),
    Right(Seq<char>),
}

/// An entity as specifications see it: the tree-shaped components replaced
/// by their own views.
pub ghost struct EntityView {
    pub player: bool,
    pub controllable: bool,
    pub enemy: bool,
    pub boss: bool,
    pub bullet: bool,
    pub die_offscreen: bool,
    pub been_on_screen: Option<bool>,
    pub transform: Option<Transform2D>,
    pub sprite: Option<Sprite>,
    pub hitbox: Option<Hitbox>,
    pub move_params: Option<MoveParams>,
    pub attack: Option<AttackView>,
    pub moves: Option<Seq<Movement>>,
    pub boss_moves: Option<Seq<BossMoveView>>,
    pub hitpoint: Option<Hitpoint>,
    pub cooldown: Option<Cooldown>,
    pub health_bar: Option<Rect>,
    pub wanderable: Option<Wanderable>,
    pub text: Option<TextView>,
}

/// The view of a caption.
pub open spec fn text_view(t: Text) -> TextView {
    match t {
        Text::Left(s) => TextView::Left(s@),
        Text::Center(s) => TextView::Center(s@),
        Text::Right(s) => TextView::Right(s@),
    }
}

/// The view of an entity.
pub open spec fn entity_view(e: Entity) -> EntityView {
    EntityView {
        player: e.player,
        controllable: e.controllable,
        enemy: e.enemy,
        boss: e.boss,
        bullet: e.bullet,
        die_offscreen: e.die_offscreen,
        been_on_screen: e.been_on_screen,
        transform: e.transform,
        sprite: e.sprite,
        hitbox: e.hitbox,
        move_params: e.move_params,
        attack: match e.attack {
            Some(a) => Some(attack_view(a)),
            None => None,
        },
        moves: match e.moves {
            Some(m) => Some(m.0@),
            None => None,
        },
        boss_moves: match e.boss_moves {
            Some(b) => Some(boss_views(b.0@)),
            None => None,
        },
        hitpoint: e.hitpoint,
        cooldown: e.cooldown,
        health_bar: e.health_bar,
        wanderable: e.wanderable,
        text: match e.text {
            Some(t) => Some(text_view(t)),
            None => None,
        },
    }
}

/// The view of one slot.
pub open spec fn slot_view(s: Option<Entity>) -> Option<EntityView> {
    match s {
        Some(e) => Some(entity_view(e)),
        None => None,
    }
}

/// The view of the whole store: one slot view per slot.
pub open spec fn world_view(s: Seq<Option<Entity>>) -> Seq<Option<EntityView>> {
    s.map_values(|oe: Option<Entity>| slot_view(oe))
}

/// The entity store: a vector of slots.  A live entity sits in a `Some`
/// slot; a cleared slot stays in place so identifiers stay stable.
pub struct World {
    pub ents: Vec<Option<Entity>>,
}

impl World {
    /// An empty store.
    pub fn new() -> (r: World)
        ensures
            r.ents@.len() == 0,
    {
        World { ents: Vec::new() }
    }

    /// Adds an entity; returns its identifier.
    pub fn spawn(&mut self, e: Entity) -> (id: usize)
        ensures
            final(self).ents@ == old(self).ents@.push(Some(e)),
            id == old(self).ents@.len(),
    {
        let id: usize = self.ents.len();
        self.ents.push(Some(e));
        id
    }

    /// Removes the entity under `id`, if it is live; removing a cleared or
    /// unknown identifier changes nothing.
    pub fn despawn(&mut self, id: usize)
        ensures
            id < old(self).ents@.len() ==> final(self).ents@ == old(self).ents@.update(
                id as int,
                None,
            ),
            id >= old(self).ents@.len() ==> final(self).ents@ == old(self).ents@,
    {
        if id < self.ents.len() {
            self.ents[id] = None;
            proof {
                assert(self.ents@ =~= old(self).ents@.update(id as int, None));
            }
        }
    }

    /// How many slots the store holds, live or cleared.
    pub fn len(&self) -> (r: usize)
        ensures
            r == self.ents@.len(),
    {
        self.ents.len()
    }

    /// Whether `id` names a live entity.
    pub fn alive(&self, id: usize) -> (r: bool)
        ensures
            r == (id < self.ents@.len() && self.ents@[id as int] is Some),
    {
        id < self.ents.len() && self.ents[id].is_some()
    }
}

} // verus!
