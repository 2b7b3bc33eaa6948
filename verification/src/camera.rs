//! The camera and its motion: free, bound to an entity, or on its way to a
//! point or to an entity.

use vstd::prelude::*;
use crate::anchor::DynamicallyAnchored;
use crate::easing::{lemma_sampled_ends, sample, sampled, EaseFunction};
use crate::fixed::{fraction, lemma_fraction_range, ratio, ONE};
use crate::vector::{Vec2, Vec3};
use crate::world::Entity;

verus! {

/// A fixed offset from an entity at which the camera follows it.
#[derive(Clone, Copy, Debug, PartialEq, Eq, Structural)]
pub struct CameraOffset(pub Vec2);

/// What the camera reads of an entity that it follows: where the entity is,
/// and the offset it asks the camera to keep.
#[derive(Clone, Copy, Debug, PartialEq, Eq, Structural)]
pub struct Followable {
    pub translation: Vec3,
    pub offset: Option<CameraOffset>,
}

impl Followable {
    /// The offset of the entity in the plane, none counting as zero.
    pub open spec fn planar_offset(self) -> Vec2 {
        match self.offset {
            Some(o) => o.0,
            None => Vec2::origin(),
        }
    }

    /// Where the camera stands when it follows the entity: the entity's
    /// translation moved by its offset, at the entity's own depth.
    pub open spec fn position(self) -> Vec3 {
        self.translation.plus(self.planar_offset().extended(0))
    }

    /// Where the camera stands when it follows the entity.
    pub fn focus(&self) -> (p: Vec3)
        ensures
            p == self.position(),
    {
        let offset: Vec2 = match self.offset {
            Some(o) => o.0,
            None => Vec2::zero(),
        };
        self.translation.saturating_add(offset.extend(0))
    }
}

/// The camera follows this entity: each tick it stands where the entity is.
#[derive(Clone, Copy, Debug, PartialEq, Eq, Structural)]
pub struct Binded(pub Entity);

/// The two ends of a move. The start is a point; the end is a point, or an
/// entity whose position is read anew at every tick.
#[derive(Clone, Copy, Debug, PartialEq, Eq, Structural)]
#[allow(inconsistent_fields)]
pub enum Domain {
    Entity { start: Vec3, end: Entity },
    Positions { start: Vec3, end: Vec3 },
}

impl Domain {
    /// The entity at the end of the move, if it ends at one.
    pub open spec fn end_entity(self) -> Option<Entity> {
        match self {
            Domain::Entity { start, end } => Some(end),
            Domain::Positions { start, end } => None,
        }
    }

    /// The entity at the end of the move, if it ends at one.
    pub fn target(&self) -> (t: Option<Entity>)
        ensures
            t == self.end_entity(),
    {
        match self {
            Domain::Entity { start, end } => Some(*end),
            Domain::Positions { start, end } => None,
        }
    }
}

/// A move of the camera that takes `duration` microseconds, of which
/// `elapsed` have passed.
#[derive(Clone, Copy, Debug, PartialEq, Eq, Structural)]
pub struct MoveTo {
    pub elapsed: u64,
    pub duration: u64,
    pub easing: EaseFunction,
    pub domain: Domain,
}

impl MoveTo {
    /// Whether the time of the move has passed.
    pub open spec fn is_complete(self) -> bool {
        self.elapsed >= self.duration
    }

    /// The share of its time that the move has used, from 0 to 1.
    pub open spec fn progress(self) -> int {
        fraction(self.elapsed as int, self.duration as int)
    }

    /// The move after `delta` more microseconds: time adds up until the
    /// duration is reached and stops there.
    pub open spec fn ticked(self, delta: int) -> MoveTo {
        if self.elapsed >= self.duration {
            self
        } else if self.elapsed + delta >= self.duration {
            MoveTo { elapsed: self.duration, ..self }
        } else {
            MoveTo { elapsed: (self.elapsed + delta) as u64, ..self }
        }
    }

    /// Where the move puts the camera, given what its end entity resolves
    /// to: nowhere if the move ends at an entity that does not resolve.
    pub open spec fn point(self, target: Option<Followable>) -> Option<Vec3> {
        match self.domain {
            Domain::Positions { start, end } => Some(
                sampled(start, end, self.easing, self.progress()),
            ),
            Domain::Entity { start, end } => match target {
                Some(t) => Some(sampled(start, t.position(), self.easing, self.progress())),
                None => None,
            },
        }
    }

    /// A move from `start` to the point `end`, not yet begun.
    pub fn new(duration: u64, start: Vec3, end: Vec3, easing: EaseFunction) -> (m: MoveTo)
        ensures
            m == (MoveTo { elapsed: 0, duration, easing, domain: Domain::Positions { start, end } }),
    {
        MoveTo { elapsed: 0, duration, easing, domain: Domain::Positions { start, end } }
    }

    /// A move from `start` to wherever `target` is, not yet begun.
    pub fn new_with_entity(duration: u64, start: Vec3, target: Entity, easing: EaseFunction) -> (m:
        MoveTo)
        ensures
            m == (MoveTo {
                elapsed: 0,
                duration,
                easing,
                domain: Domain::Entity { start, end: target },
            }),
    {
        MoveTo { elapsed: 0, duration, easing, domain: Domain::Entity { start, end: target } }
    }

    /// Lets `duration` microseconds pass.
    pub fn tick(&mut self, duration: u64)
        ensures
            *final(self) == old(self).ticked(duration as int),
    {
        if self.elapsed < self.duration {
            let left: u64 = self.duration - self.elapsed;
            if duration >= left {
                self.elapsed = self.duration;
            } else {
                self.elapsed = self.elapsed + duration;
            }
        }
    }

    /// Whether the time of the move has passed.
    pub fn complete(&self) -> (b: bool)
        ensures
            b == self.is_complete(),
    {
        self.elapsed >= self.duration
    }

    /// The share of its time that the move has used, from 0 to 1.
    pub fn fraction(&self) -> (f: i64)
        ensures
            f == self.progress(),
            0 <= f <= ONE,
    {
        ratio(self.elapsed, self.duration)
    }
}

/// What the camera does from tick to tick. It is in one mode at a time.
#[derive(Clone, Copy, Debug, PartialEq, Eq, Structural)]
pub enum CameraMode {
    /// Nothing moves the camera.
    Free,
    /// The camera stands where an entity is.
    BoundTo(Binded),
    /// The camera is on its way.
    Moving(MoveTo),
}

/// The camera: where it is, what moves it, and the dynamic anchor that holds
/// it, if one does.
#[derive(Clone, Copy, Debug, PartialEq, Eq, Structural)]
pub struct MainCamera {
    pub translation: Vec3,
    pub mode: CameraMode,
    pub anchored: Option<DynamicallyAnchored>,
}

/// Why the camera was not bound.
#[derive(Clone, Copy, Debug, PartialEq, Eq, Structural)]
pub enum BindError {
    /// There is no entity to bind to.
    EntityNotFound,
    /// There is no camera.
    CameraNotFound,
}

impl MainCamera {
    /// The entity that the camera's mode refers to: the one it is bound to,
    /// or the one its move ends at.
    pub open spec fn followed(self) -> Option<Entity> {
        match self.mode {
            CameraMode::Free => None,
            CameraMode::BoundTo(b) => Some(b.0),
            CameraMode::Moving(m) => m.domain.end_entity(),
        }
    }

    /// The camera with another mode.
    pub open spec fn with_mode(self, mode: CameraMode) -> MainCamera {
        MainCamera { mode, ..self }
    }

    /// The camera at another place.
    pub open spec fn at(self, translation: Vec3) -> MainCamera {
        MainCamera { translation, ..self }
    }

    /// A free camera at `translation`.
    pub fn new(translation: Vec3) -> (c: MainCamera)
        ensures
            c == (MainCamera { translation, mode: CameraMode::Free, anchored: None }),
    {
        MainCamera { translation, mode: CameraMode::Free, anchored: None }
    }

    /// The entity that the camera's mode refers to.
    pub fn target(&self) -> (t: Option<Entity>)
        ensures
            t == self.followed(),
    {
        match self.mode {
            CameraMode::Free => None,
            CameraMode::BoundTo(b) => Some(b.0),
            CameraMode::Moving(m) => m.domain.target(),
        }
    }

    /// The binding of the camera, if it is bound.
    pub fn binded(&self) -> (b: Option<Binded>)
        ensures
            b == match self.mode {
                CameraMode::BoundTo(b) => Some(b),
                _ => None,
            },
    {
        match self.mode {
            CameraMode::BoundTo(b) => Some(b),
            _ => None,
        }
    }
}

/// The camera after a tick of its binding. A bound camera stands where its
/// entity is; if the entity does not resolve, or the camera is not bound,
/// nothing changes.
pub open spec fn after_binded(camera: MainCamera, target: Option<Followable>) -> MainCamera {
    match (camera.mode, target) {
        (CameraMode::BoundTo(_), Some(t)) => camera.at(t.position()),
        _ => camera,
    }
}

/// The mode that follows a move: the move itself while its time runs, then
/// a binding to the entity it ended at, or freedom if it ended at a point.
pub open spec fn mode_after(m: MoveTo) -> CameraMode {
    if m.is_complete() {
        match m.domain.end_entity() {
            Some(e) => CameraMode::BoundTo(Binded(e)),
            None => CameraMode::Free,
        }
    } else {
        CameraMode::Moving(m)
    }
}

/// The camera after `delta` microseconds of its move. The time of the move
/// advances; the camera is put on the curve at the share of time now used,
/// towards the point or towards where the end entity is now; an end entity
/// that does not resolve leaves the camera where it was. When the time has
/// passed the move ends. A camera that is not moving does not change.
pub open spec fn after_move_to(camera: MainCamera, target: Option<Followable>, delta: int) -> MainCamera {
    match camera.mode {
        CameraMode::Moving(m) => {
            let moved = m.ticked(delta);
            MainCamera {
                translation: match moved.point(target) {
                    Some(p) => p,
                    None => camera.translation,
                },
                mode: mode_after(moved),
                anchored: camera.anchored,
            }
        },
        _ => camera,
    }
}

/// The end of a move to an entity at `translation`, `offset` away from it in
/// the plane.
pub open spec fn destination(translation: Vec3, offset: Vec2) -> Vec3 {
    translation.plus(offset.extended(0))
}

/// The end of a move to an entity, `offset` away from where the camera would
/// follow it.
pub open spec fn destination_of(entity: Followable, offset: Vec2) -> Vec3 {
    entity.translation.plus(offset.extended(0)).plus(entity.planar_offset().extended(0))
}

/// The camera once it is sent from where it is to the point `end`: whatever
/// moved it before is replaced.
pub open spec fn sent_to(camera: MainCamera, end: Vec3, duration: u64, easing: EaseFunction) -> MainCamera {
    camera.with_mode(
        CameraMode::Moving(
            MoveTo {
                elapsed: 0,
                duration,
                easing,
                domain: Domain::Positions { start: camera.translation, end },
            },
        ),
    )
}

/// One tick of the camera's binding. `target` is what the bound entity
/// resolves to, none if it is gone. The result tells whether the camera is
/// bound to an entity that did not resolve.
pub fn camera_binded(camera: &mut MainCamera, target: Option<Followable>) -> (dangling: bool)
    ensures
        *final(camera) == after_binded(*old(camera), target),
        dangling == (old(camera).mode is BoundTo && target is None),
{
    match camera.mode {
        CameraMode::BoundTo(_) => match target {
            Some(t) => {
                camera.translation = t.focus();
                false
            },
            None => true,
        },
        _ => false,
    }
}

/// One tick of the camera's move, `delta` microseconds long. `target` is
/// what the entity at the end of the move resolves to, none if it is gone or
/// the move ends at a point.
pub fn camera_move_to(camera: &mut MainCamera, target: Option<Followable>, delta: u64)
    ensures
        *final(camera) == after_move_to(*old(camera), target, delta as int),
{
    match camera.mode {
        CameraMode::Moving(m) => {
            let mut moved: MoveTo = m;
            moved.tick(delta);
            let t: i64 = moved.fraction();
            match moved.domain {
                Domain::Positions { start, end } => {
                    camera.translation = sample(start, end, moved.easing, t);
                },
                Domain::Entity { start, end } => match target {
                    Some(f) => {
                        camera.translation = sample(start, f.focus(), moved.easing, t);
                    },
                    None => {},
                },
            }
            if moved.complete() {
                camera.mode = match moved.domain.target() {
                    Some(e) => CameraMode::BoundTo(Binded(e)),
                    None => CameraMode::Free,
                };
            } else {
                camera.mode = CameraMode::Moving(moved);
            }
        },
        _ => {},
    }
}

/// Binds the camera to `entity`, in place of whatever moved it before.
pub fn bind_camera(entity: Option<Entity>, camera: &mut Option<MainCamera>) -> (r: Result<
    (),
    BindError,
>)
    ensures
        *old(camera) is None ==> r == Err::<(), BindError>(BindError::CameraNotFound),
        *old(camera) is Some && entity is None ==> r == Err::<(), BindError>(
            BindError::EntityNotFound,
        ),
        *old(camera) is Some && entity is Some ==> r is Ok,
        r is Err ==> *final(camera) == *old(camera),
        r is Ok ==> *final(camera) == Some(
            old(camera)->0.with_mode(CameraMode::BoundTo(Binded(entity->0))),
        ),
{
    match camera {
        Some(c) => match entity {
            Some(e) => {
                c.mode = CameraMode::BoundTo(Binded(e));
                Ok(())
            },
            None => Err(BindError::EntityNotFound),
        },
        None => Err(BindError::CameraNotFound),
    }
}

/// Sends the camera to the place of an entity at `translation`, `offset`
/// away from it, at an even pace over `duration` microseconds. The camera is
/// no longer bound.
pub fn move_camera_to(camera: &mut MainCamera, translation: Vec3, offset: Vec2, duration: u64)
    ensures
        *final(camera) == sent_to(
            *old(camera),
            destination(translation, offset),
            duration,
            EaseFunction::Linear,
        ),
{
    let end: Vec3 = translation.saturating_add(offset.extend(0));
    camera.mode = CameraMode::Moving(
        MoveTo::new(duration, camera.translation, end, EaseFunction::Linear),
    );
}

/// Sends the camera to where it would follow `entity`, `offset` away from
/// it, along `curve` over `duration` microseconds. The camera is no longer
/// bound.
pub fn move_camera_curve(
    camera: &mut MainCamera,
    entity: Followable,
    offset: Vec2,
    duration: u64,
    curve: EaseFunction,
)
    ensures
        *final(camera) == sent_to(*old(camera), destination_of(entity, offset), duration, curve),
{
    let own: Vec2 = match entity.offset {
        Some(o) => o.0,
        None => Vec2::zero(),
    };
    let end: Vec3 = entity.translation.saturating_add(offset.extend(0)).saturating_add(
        own.extend(0),
    );
    camera.mode = CameraMode::Moving(MoveTo::new(duration, camera.translation, end, curve));
}

/// Sends the camera as `move_camera_to` does and hands back the binding to
/// `entity` that is due when the move is over.
pub fn move_then_bind_camera(
    camera: &mut MainCamera,
    entity: Entity,
    translation: Vec3,
    offset: Vec2,
    duration: u64,
) -> (then: Binded)
    ensures
        *final(camera) == sent_to(
            *old(camera),
            destination(translation, offset),
            duration,
            EaseFunction::Linear,
        ),
        then == Binded(entity),
{
    move_camera_to(camera, translation, offset, duration);
    Binded(entity)
}

/// Sends the camera as `move_camera_curve` does and hands back the binding
/// to `entity` that is due when the move is over.
pub fn move_curve_then_bind_camera(
    camera: &mut MainCamera,
    entity: Entity,
    followed: Followable,
    offset: Vec2,
    duration: u64,
    curve: EaseFunction,
) -> (then: Binded)
    ensures
        *final(camera) == sent_to(*old(camera), destination_of(followed, offset), duration, curve),
        then == Binded(entity),
{
    move_camera_curve(camera, followed, offset, duration, curve);
    Binded(entity)
}

/// Time passes alike however it is cut: two ticks one after the other leave
/// a move where one tick of their sum leaves it.
pub proof fn lemma_ticks_add_up(m: MoveTo, first: int, second: int)
    requires
        0 <= first,
        0 <= second,
    ensures
        m.ticked(first).ticked(second) == m.ticked(first + second),
{
}

/// A move to a point does not depend on the frame rate: two ticks one after
/// the other leave the camera where one tick of their sum leaves it.
pub proof fn lemma_move_is_frame_rate_independent(
    camera: MainCamera,
    m: MoveTo,
    start: Vec3,
    end: Vec3,
    first: int,
    second: int,
    seen: Option<Followable>,
    other: Option<Followable>,
)
    requires
        camera.mode == CameraMode::Moving(m),
        m.domain == (Domain::Positions { start, end }),
        0 <= first,
        0 <= second,
    ensures
        after_move_to(after_move_to(camera, seen, first), other, second) == after_move_to(
            camera,
            other,
            first + second,
        ),
{
    lemma_ticks_add_up(m, first, second);
    let once = m.ticked(first);
    let whole = m.ticked(first + second);
    lemma_fraction_range(once.elapsed as int, once.duration as int);
    lemma_fraction_range(whole.elapsed as int, whole.duration as int);
    lemma_sampled_ends(start, end, m.easing, once.progress());
    lemma_sampled_ends(start, end, m.easing, whole.progress());
}

/// A move to an entity does not depend on the frame rate either, as long
/// as the entity is there at the last tick: two ticks one after the other
/// leave the camera where one tick of their sum leaves it, if the move is
/// not over at the first tick or the entity is seen at the same place in
/// both.
pub proof fn lemma_move_to_entity_is_frame_rate_independent(
    camera: MainCamera,
    m: MoveTo,
    start: Vec3,
    end: Entity,
    first: int,
    second: int,
    seen: Option<Followable>,
    last: Followable,
)
    requires
        camera.mode == CameraMode::Moving(m),
        m.domain == (Domain::Entity { start, end }),
        0 <= first,
        0 <= second,
        m.elapsed + first < m.duration || seen == Some(last),
    ensures
        after_move_to(after_move_to(camera, seen, first), Some(last), second) == after_move_to(
            camera,
            Some(last),
            first + second,
        ),
{
    lemma_ticks_add_up(m, first, second);
}

/// A move to a point whose time runs out puts the camera exactly at the
/// point and sets it free; after that no tick moves it.
pub proof fn lemma_move_to_point_arrives(
    camera: MainCamera,
    m: MoveTo,
    start: Vec3,
    end: Vec3,
    delta: int,
    target: Option<Followable>,
)
    requires
        camera.mode == CameraMode::Moving(m),
        m.domain == (Domain::Positions { start, end }),
        0 <= delta,
        m.elapsed + delta >= m.duration,
    ensures
        after_move_to(camera, target, delta) == (MainCamera {
            translation: end,
            mode: CameraMode::Free,
            anchored: camera.anchored,
        }),
        forall|later: int, other: Option<Followable>|
            #![trigger after_move_to(after_move_to(camera, target, delta), other, later)]
            after_move_to(after_move_to(camera, target, delta), other, later) == after_move_to(
                camera,
                target,
                delta,
            ),
        forall|other: Option<Followable>|
            #![trigger after_binded(after_move_to(camera, target, delta), other)]
            after_binded(after_move_to(camera, target, delta), other) == after_move_to(
                camera,
                target,
                delta,
            ),
{
    let moved = m.ticked(delta);
    lemma_fraction_range(moved.elapsed as int, moved.duration as int);
    lemma_sampled_ends(start, end, m.easing, moved.progress());
}

/// A move to an entity aims at where the entity is when the tick is taken,
/// not where it was when the move began: the camera lies on the curve from
/// the start of the move to the position handed to this tick. When the time
/// runs out the camera is exactly there and bound to the entity.
pub proof fn lemma_move_to_entity_is_live(
    camera: MainCamera,
    m: MoveTo,
    start: Vec3,
    end: Entity,
    delta: int,
    now: Followable,
)
    requires
        camera.mode == CameraMode::Moving(m),
        m.domain == (Domain::Entity { start, end }),
        0 <= delta,
    ensures
        after_move_to(camera, Some(now), delta).translation == sampled(
            start,
            now.position(),
            m.easing,
            m.ticked(delta).progress(),
        ),
        m.elapsed + delta >= m.duration ==> after_move_to(camera, Some(now), delta) == (MainCamera {
            translation: now.position(),
            mode: CameraMode::BoundTo(Binded(end)),
            anchored: camera.anchored,
        }),
        after_move_to(camera, None, delta).translation == camera.translation,
        after_move_to(camera, None, delta).mode == after_move_to(camera, Some(now), delta).mode,
{
    let moved = m.ticked(delta);
    lemma_fraction_range(moved.elapsed as int, moved.duration as int);
    lemma_sampled_ends(start, now.position(), m.easing, moved.progress());
}

} // verus!
