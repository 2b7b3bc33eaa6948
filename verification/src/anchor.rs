//! Anchors: points that take hold of the camera.
//!
//! A static anchor holds the camera at its own place for as long as it is the
//! only one. A dynamic anchor takes hold when the anchor target comes within
//! its radius and lets go when the target leaves it.

use vstd::prelude::*;
use crate::camera::{CameraMode, Domain, MainCamera, MoveTo};
use crate::easing::EaseFunction;
use crate::fixed::ONE;
use crate::vector::{distance_squared, Vec3};
use crate::world::Entity;

verus! {

/// Marks the place that the camera snaps to while a single such place exists.
#[derive(Clone, Copy, Debug, Default, PartialEq, Eq, Structural)]
pub struct CameraAnchor;

/// A place that the camera moves to when the anchor target comes within
/// `radius` of it. `speed` is the time that the move takes, in milliseconds.
#[derive(Clone, Copy, Debug, PartialEq, Eq, Structural)]
pub struct DynamicCameraAnchor {
    pub radius: i64,
    pub speed: i64,
}

/// Marks the entity whose approach triggers dynamic anchors. Only one should
/// exist at any time.
#[derive(Clone, Copy, Debug, Default, PartialEq, Eq, Structural)]
pub struct AnchorTarget;

/// The dynamic anchor that holds the camera.
#[derive(Clone, Copy, Debug, PartialEq, Eq, Structural)]
pub struct DynamicallyAnchored(pub Entity);

/// A dynamic anchor of the registry and where it is.
#[derive(Clone, Copy, Debug, PartialEq, Eq, Structural)]
pub struct AnchorRecord {
    pub entity: Entity,
    pub anchor: DynamicCameraAnchor,
    pub translation: Vec3,
}

/// An anchor target of the registry and where it is.
#[derive(Clone, Copy, Debug, PartialEq, Eq, Structural)]
pub struct TargetRecord {
    pub entity: Entity,
    pub translation: Vec3,
}

impl DynamicCameraAnchor {
    /// The time that a move triggered by this anchor takes, in microseconds:
    /// the whole milliseconds of `speed`, none if `speed` is negative.
    pub open spec fn duration(self) -> int {
        if self.speed <= 0 {
            0
        } else {
            (self.speed as int / ONE as int) * 1000
        }
    }

    /// Whether a target at `target` is within the radius of this anchor at
    /// `at`. Only the plane counts, and the rim is inside.
    pub open spec fn reaches(self, at: Vec3, target: Vec3) -> bool {
        distance_squared(at.planar(), target.planar()) <= self.radius * self.radius
    }

    /// An anchor that reaches `radius` far and moves the camera in `speed`
    /// milliseconds. A negative radius reaches as far as its size, a
    /// negative speed takes no time.
    pub fn new(radius: i64, speed: i64) -> (a: DynamicCameraAnchor)
        ensures
            a == (DynamicCameraAnchor { radius, speed }),
    {
        DynamicCameraAnchor { radius, speed }
    }

    /// The time that a move triggered by this anchor takes, in microseconds.
    pub fn move_duration(&self) -> (d: u64)
        ensures
            d == self.duration(),
    {
        if self.speed <= 0 {
            0
        } else {
            let millis: u64 = (self.speed / ONE) as u64;
            millis * 1000
        }
    }

    /// Whether a target at `target` is within the radius of this anchor at
    /// `at`.
    pub fn in_reach(&self, at: Vec3, target: Vec3) -> (b: bool)
        ensures
            b == self.reaches(at, target),
    {
        at.xy().within(target.xy(), self.radius)
    }
}

impl AnchorRecord {
    /// Whether a target at `target` is within the radius of this anchor.
    pub open spec fn holds(self, target: Vec3) -> bool {
        self.anchor.reaches(self.translation, target)
    }
}

/// The first anchor from index `from` on that has `target` within its
/// radius.
pub open spec fn first_in_reach(anchors: Seq<AnchorRecord>, target: Vec3, from: int) -> Option<int>
    decreases anchors.len() - from,
{
    if from < 0 || from >= anchors.len() {
        None
    } else if anchors[from].holds(target) {
        Some(from)
    } else {
        first_in_reach(anchors, target, from + 1)
    }
}

/// The first record from index `from` on that belongs to `entity`.
pub open spec fn first_of(anchors: Seq<AnchorRecord>, entity: Entity, from: int) -> Option<int>
    decreases anchors.len() - from,
{
    if from < 0 || from >= anchors.len() {
        None
    } else if anchors[from].entity == entity {
        Some(from)
    } else {
        first_of(anchors, entity, from + 1)
    }
}

/// The move that starts when `anchor` takes hold of a camera at `start`: to
/// wherever `target` is, easing out.
pub open spec fn move_to_target(anchor: DynamicCameraAnchor, start: Vec3, target: Entity) -> MoveTo {
    MoveTo {
        elapsed: 0,
        duration: anchor.duration() as u64,
        easing: EaseFunction::QuadraticOut,
        domain: Domain::Entity { start, end: target },
    }
}

/// The move that starts when `anchor` at `at` lets go of a camera at `start`:
/// back to the anchor's own place, easing out.
pub open spec fn move_to_anchor(anchor: DynamicCameraAnchor, start: Vec3, at: Vec3) -> MoveTo {
    MoveTo {
        elapsed: 0,
        duration: anchor.duration() as u64,
        easing: EaseFunction::QuadraticOut,
        domain: Domain::Positions { start, end: at },
    }
}

/// The camera after the bind check. A camera that no dynamic anchor holds is
/// taken by the first anchor of the list that has the one anchor target
/// within its radius: it starts to move to the target and records the anchor.
/// With no such anchor, with a camera that is held already, or without
/// exactly one anchor target, nothing changes.
pub open spec fn after_bind(
    camera: MainCamera,
    anchors: Seq<AnchorRecord>,
    targets: Seq<TargetRecord>,
) -> MainCamera {
    if camera.anchored is Some || targets.len() != 1 {
        camera
    } else {
        match first_in_reach(anchors, targets[0].translation, 0) {
            None => camera,
            Some(i) => MainCamera {
                translation: camera.translation,
                mode: CameraMode::Moving(
                    move_to_target(anchors[i].anchor, camera.translation, targets[0].entity),
                ),
                anchored: Some(DynamicallyAnchored(anchors[i].entity)),
            },
        }
    }
}

/// The camera after the unbind check. A camera held by a dynamic anchor whose
/// radius the one anchor target has left starts to move back to the anchor's
/// place and is no longer held. If the target is still within the radius, if
/// the anchor is not in the list, if no anchor holds the camera, or without
/// exactly one anchor target, nothing changes.
pub open spec fn after_unbind(
    camera: MainCamera,
    anchors: Seq<AnchorRecord>,
    targets: Seq<TargetRecord>,
) -> MainCamera {
    if targets.len() != 1 {
        camera
    } else {
        match camera.anchored {
            None => camera,
            Some(held) => match first_of(anchors, held.0, 0) {
                None => camera,
                Some(i) => if anchors[i].holds(targets[0].translation) {
                    camera
                } else {
                    MainCamera {
                        translation: camera.translation,
                        mode: CameraMode::Moving(
                            move_to_anchor(
                                anchors[i].anchor,
                                camera.translation,
                                anchors[i].translation,
                            ),
                        ),
                        anchored: None,
                    }
                },
            },
        }
    }
}

/// The camera after the static anchors had their say: at the anchor's place
/// if there is exactly one, unchanged otherwise.
pub open spec fn after_anchor(camera: MainCamera, anchors: Seq<Vec3>) -> MainCamera {
    if anchors.len() == 1 {
        camera.at(anchors[0])
    } else {
        camera
    }
}

/// What `first_in_reach` finds is in reach, and nothing before it is.
pub proof fn lemma_first_in_reach(anchors: Seq<AnchorRecord>, target: Vec3, from: int)
    requires
        0 <= from,
    ensures
        match first_in_reach(anchors, target, from) {
            Some(i) => from <= i < anchors.len() && anchors[i].holds(target) && forall|j: int|
                from <= j < i ==> !(#[trigger] anchors[j]).holds(target),
            None => forall|j: int| from <= j < anchors.len() ==> !(#[trigger] anchors[j]).holds(target),
        },
    decreases anchors.len() - from,
{
    if from < anchors.len() && !anchors[from].holds(target) {
        lemma_first_in_reach(anchors, target, from + 1);
    }
}

/// What `first_of` finds belongs to the entity, and nothing before it does.
pub proof fn lemma_first_of(anchors: Seq<AnchorRecord>, entity: Entity, from: int)
    requires
        0 <= from,
    ensures
        match first_of(anchors, entity, from) {
            Some(i) => from <= i < anchors.len() && anchors[i].entity == entity && forall|j: int|
                from <= j < i ==> (#[trigger] anchors[j]).entity != entity,
            None => forall|j: int| from <= j < anchors.len() ==> (#[trigger] anchors[j]).entity != entity,
        },
    decreases anchors.len() - from,
{
    if from < anchors.len() && anchors[from].entity != entity {
        lemma_first_of(anchors, entity, from + 1);
    }
}

/// The rim of an anchor is inside it, and taking hold and letting go turn on
/// the same line. A camera that no anchor holds is taken exactly when some
/// anchor has the target within its radius, the rim included, and then by
/// the first such anchor. A camera that an anchor holds is let go exactly
/// when the target is beyond the radius of that anchor.
pub proof fn lemma_reach_decides(
    camera: MainCamera,
    anchors: Seq<AnchorRecord>,
    target: TargetRecord,
)
    ensures
        forall|i: int|
            0 <= i < anchors.len() && distance_squared(
                (#[trigger] anchors[i]).translation.planar(),
                target.translation.planar(),
            ) == anchors[i].anchor.radius * anchors[i].anchor.radius ==> anchors[i].holds(
                target.translation,
            ),
        camera.anchored is None ==> (after_bind(camera, anchors, seq![target]).anchored is Some
            <==> exists|i: int| 0 <= i < anchors.len() && (#[trigger] anchors[i]).holds(target.translation)),
        camera.anchored is None ==> forall|i: int|
            0 <= i < anchors.len() && (#[trigger] anchors[i]).holds(target.translation) && (forall|j: int|
                0 <= j < i ==> !(#[trigger] anchors[j]).holds(target.translation)) ==> after_bind(
                camera,
                anchors,
                seq![target],
            ) == (MainCamera {
                translation: camera.translation,
                mode: CameraMode::Moving(
                    move_to_target(anchors[i].anchor, camera.translation, target.entity),
                ),
                anchored: Some(DynamicallyAnchored(anchors[i].entity)),
            }),
        forall|i: int|
            0 <= i < anchors.len() && camera.anchored == Some(
                DynamicallyAnchored((#[trigger] anchors[i]).entity),
            ) && (forall|j: int| 0 <= j < i ==> (#[trigger] anchors[j]).entity != anchors[i].entity)
                ==> (after_unbind(camera, anchors, seq![target]).anchored is None <==> !anchors[i].holds(
                target.translation,
            )),
        camera.anchored is Some ==> after_bind(camera, anchors, seq![target]) == camera,
        camera.anchored is None ==> after_unbind(camera, anchors, seq![target]) == camera,
{
    lemma_first_in_reach(anchors, target.translation, 0);
    if let Some(held) = camera.anchored {
        lemma_first_of(anchors, held.0, 0);
    }
}

/// Exactly one static anchor puts the camera at its place, whatever moved
/// the camera before.
pub proof fn lemma_single_anchor_decides(camera: MainCamera, place: Vec3)
    ensures
        after_anchor(camera, seq![place]).translation == place,
        after_anchor(camera, seq![place]).mode == camera.mode,
        after_anchor(camera, seq![place]).anchored == camera.anchored,
{
}

/// The index of the first anchor that has `target` within its radius.
fn find_in_reach(anchors: &Vec<AnchorRecord>, target: Vec3) -> (r: Option<usize>)
    ensures
        match r {
            Some(i) => first_in_reach(anchors@, target, 0) == Some(i as int) && i < anchors.len(),
            None => first_in_reach(anchors@, target, 0) is None,
        },
{
    let mut i: usize = 0;
    while i < anchors.len()
        invariant
            i <= anchors.len(),
            first_in_reach(anchors@, target, 0) == first_in_reach(anchors@, target, i as int),
        decreases anchors.len() - i,
    {
        let a: AnchorRecord = anchors[i];
        if a.anchor.in_reach(a.translation, target) {
            return Some(i);
        }
        i = i + 1;
    }
    None
}

/// The index of the first record that belongs to `entity`.
fn find_anchor(anchors: &Vec<AnchorRecord>, entity: Entity) -> (r: Option<usize>)
    ensures
        match r {
            Some(i) => first_of(anchors@, entity, 0) == Some(i as int) && i < anchors.len(),
            None => first_of(anchors@, entity, 0) is None,
        },
{
    let mut i: usize = 0;
    while i < anchors.len()
        invariant
            i <= anchors.len(),
            first_of(anchors@, entity, 0) == first_of(anchors@, entity, i as int),
        decreases anchors.len() - i,
    {
        if anchors[i].entity == entity {
            return Some(i);
        }
        i = i + 1;
    }
    None
}

/// The snap to the static anchor: `anchors` holds the place of each static
/// anchor that exists.
pub fn anchor(camera: &mut MainCamera, anchors: &Vec<Vec3>)
    ensures
        *final(camera) == after_anchor(*old(camera), anchors@),
{
    if anchors.len() == 1 {
        camera.translation = anchors[0];
    }
}

/// The unbind check of one tick. `anchors` holds the dynamic anchors that
/// exist and `targets` the anchor targets, of which there should be one.
pub fn unbind_dyn_anchor(
    camera: &mut MainCamera,
    anchors: &Vec<AnchorRecord>,
    targets: &Vec<TargetRecord>,
)
    ensures
        *final(camera) == after_unbind(*old(camera), anchors@, targets@),
{
    if targets.len() != 1 {
        return ;
    }
    let target: TargetRecord = targets[0];
    if let Some(held) = camera.anchored {
        if let Some(i) = find_anchor(anchors, held.0) {
            let a: AnchorRecord = anchors[i];
            if !a.anchor.in_reach(a.translation, target.translation) {
                camera.mode = CameraMode::Moving(
                    MoveTo::new(
                        a.anchor.move_duration(),
                        camera.translation,
                        a.translation,
                        EaseFunction::QuadraticOut,
                    ),
                );
                camera.anchored = None;
            }
        }
    }
}

/// The bind check of one tick. `anchors` holds the dynamic anchors that exist
/// and `targets` the anchor targets, of which there should be one.
pub fn bind_to_dyn_anchor(
    camera: &mut MainCamera,
    anchors: &Vec<AnchorRecord>,
    targets: &Vec<TargetRecord>,
)
    ensures
        *final(camera) == after_bind(*old(camera), anchors@, targets@),
{
    if camera.anchored.is_some() || targets.len() != 1 {
        return ;
    }
    let target: TargetRecord = targets[0];
    if let Some(i) = find_in_reach(anchors, target.translation) {
        let a: AnchorRecord = anchors[i];
        camera.mode = CameraMode::Moving(
            MoveTo::new_with_entity(
                a.anchor.move_duration(),
                camera.translation,
                target.entity,
                EaseFunction::QuadraticOut,
            ),
        );
        camera.anchored = Some(DynamicallyAnchored(a.entity));
    }
}

} // verus!
