//! Physical policy of the scene's bodies: the player, the static obstacle and
//! the static bodies given to tile geometry as the map loader reports it.
use vstd::prelude::*;

verus! {

/// How the physics world moves a body.
#[derive(Clone, Copy, Debug, PartialEq, Eq)]
pub enum BodyKind {
    /// Moved by forces and by the character controller.
    Dynamic,
    /// Never moved: a pure collision surface.
    Static,
}

/// The physical designation attached to an entity.
#[derive(Clone, Copy, Debug, PartialEq, Eq)]
pub struct BodyPolicy {
    pub kind: BodyKind,
    /// The body's orientation is held upright by the physics world.
    pub rotation_locked: bool,
    /// Contact friction coefficient, in hundredths.
    pub friction_hundredths: u32,
}

/// One piece of tile geometry made physical: the entity that the loader
/// created, and the body it receives.
#[derive(Clone, Copy, Debug, PartialEq, Eq)]
pub struct TileAttachment {
    pub origin: u64,
    pub body: BodyPolicy,
}

/// Static and frictionless: the policy for every piece of level geometry.
pub open spec fn static_surface() -> BodyPolicy {
    BodyPolicy { kind: BodyKind::Static, rotation_locked: false, friction_hundredths: 0 }
}

pub open spec fn attachment_of(origin: u64) -> TileAttachment {
    TileAttachment { origin, body: static_surface() }
}

/// One attachment per reported origin, in the order reported.
pub open spec fn attachments_of(origins: Seq<u64>) -> Seq<TileAttachment> {
    origins.map_values(|o: u64| attachment_of(o))
}

/// The body given to each piece of tile geometry.
pub fn tile_collider_body() -> (r: BodyPolicy)
    ensures
        r == static_surface(),
        r.kind == BodyKind::Static,
        r.friction_hundredths == 0,
{
    BodyPolicy { kind: BodyKind::Static, rotation_locked: false, friction_hundredths: 0 }
}

/// The body of the fixed obstacle: static and frictionless like the level.
pub fn obstacle_body() -> (r: BodyPolicy)
    ensures
        r == static_surface(),
{
    tile_collider_body()
}

/// The player's body: dynamic, upright at all times, and frictionless, so that
/// the controller alone decides how it slides along floors and walls.
pub fn player_body() -> (r: BodyPolicy)
    ensures
        r.kind == BodyKind::Dynamic,
        r.rotation_locked,
        r.friction_hundredths == 0,
{
    BodyPolicy { kind: BodyKind::Dynamic, rotation_locked: true, friction_hundredths: 0 }
}

/// The attachments for the "collider created" events of one tick: each
/// reported origin receives exactly one static, frictionless body, none is
/// dropped and none is added.
pub fn tile_attachments(origins: &Vec<u64>) -> (r: Vec<TileAttachment>)
    ensures
        r@ == attachments_of(origins@),
        r@.len() == origins@.len(),
        forall|i: int|
            0 <= i < r@.len() ==> #[trigger] r@[i].origin == origins@[i] && r@[i].body
                == static_surface(),
{
    let mut r: Vec<TileAttachment> = Vec::new();
    let mut i: usize = 0;
    while i < origins.len()
        invariant
            i <= origins@.len(),
            r@ == attachments_of(origins@.take(i as int)),
        decreases origins@.len() - i,
    {
        r.push(TileAttachment { origin: origins[i], body: tile_collider_body() });
        i = i + 1;
        assert(origins@.take(i as int) == origins@.take(i - 1).push(origins@[i - 1]));
        assert(r@ =~= attachments_of(origins@.take(i as int)));
    }
    assert(origins@.take(i as int) =~= origins@);
    r
}

/// Events that arrive over several ticks give the same attachments as the
/// same events arriving in a single tick: batching neither drops nor
/// duplicates any of them.
pub proof fn lemma_batches_compose(first: Seq<u64>, later: Seq<u64>)
    ensures
        attachments_of(first + later) == attachments_of(first) + attachments_of(later),
{
    assert(attachments_of(first + later) =~= attachments_of(first) + attachments_of(later));
}

} // verus!
