//! The registry of entities that the camera can follow or anchor to.

use vstd::prelude::*;
use crate::anchor::{after_anchor, after_bind, after_unbind, anchor, bind_to_dyn_anchor,
    first_in_reach, first_of, lemma_first_in_reach, lemma_first_of, move_to_anchor,
    move_to_target,
    unbind_dyn_anchor, AnchorRecord, AnchorTarget, CameraAnchor, DynamicCameraAnchor,
    DynamicallyAnchored, TargetRecord};
use crate::camera::{after_binded, after_move_to, bind_camera, camera_binded, camera_move_to,
    destination, destination_of, move_camera_curve, move_camera_to, sent_to, BindError, Binded,
    CameraMode, CameraOffset, Followable, MainCamera};
use crate::easing::EaseFunction;
use crate::vector::{Vec2, Vec3};

verus! {

/// The handle of an entity of the registry.
#[derive(Clone, Copy, Debug, PartialEq, Eq, Structural)]
pub struct Entity(pub u64);

/// An entity of the registry: where it is, and the marks it carries.
#[derive(Clone, Copy, Debug, PartialEq, Eq, Structural)]
pub struct Node {
    pub translation: Vec3,
    /// The offset at which the camera follows the entity.
    pub offset: Option<CameraOffset>,
    /// Whether the entity is a static anchor.
    pub anchor: Option<CameraAnchor>,
    /// Whether the entity is a dynamic anchor, and which.
    pub dynamic_anchor: Option<DynamicCameraAnchor>,
    /// Whether the entity is an anchor target.
    pub anchor_target: Option<AnchorTarget>,
}

/// The camera and the registry of entities around it. An entity's handle is
/// its index in `nodes`; the slot of an entity that was removed stays empty,
/// so a handle never comes to stand for another entity.
#[derive(Clone, Debug)]
pub struct World {
    pub camera: Option<MainCamera>,
    pub nodes: Vec<Option<Node>>,
}

impl Node {
    /// What the camera reads of the entity when it follows it.
    pub open spec fn followable(self) -> Followable {
        Followable { translation: self.translation, offset: self.offset }
    }

    /// An entity at `translation` that carries no mark.
    pub fn new(translation: Vec3) -> (n: Node)
        ensures
            n == (Node {
                translation,
                offset: None,
                anchor: None,
                dynamic_anchor: None,
                anchor_target: None,
            }),
    {
        Node { translation, offset: None, anchor: None, dynamic_anchor: None, anchor_target: None }
    }
}

/// The places of the static anchors among the first `n` entities, in the
/// order of their handles.
pub open spec fn static_anchors(nodes: Seq<Option<Node>>, n: int) -> Seq<Vec3>
    decreases n,
{
    if n <= 0 || n > nodes.len() {
        Seq::empty()
    } else {
        let before = static_anchors(nodes, n - 1);
        match nodes[n - 1] {
            Some(node) => if node.anchor is Some {
                before.push(node.translation)
            } else {
                before
            },
            None => before,
        }
    }
}

/// The dynamic anchors among the first `n` entities, in the order of their
/// handles.
pub open spec fn dynamic_anchors(nodes: Seq<Option<Node>>, n: int) -> Seq<AnchorRecord>
    decreases n,
{
    if n <= 0 || n > nodes.len() {
        Seq::empty()
    } else {
        let before = dynamic_anchors(nodes, n - 1);
        match nodes[n - 1] {
            Some(node) => match node.dynamic_anchor {
                Some(anchor) => before.push(
                    AnchorRecord {
                        entity: Entity((n - 1) as u64),
                        anchor,
                        translation: node.translation,
                    },
                ),
                None => before,
            },
            None => before,
        }
    }
}

/// The anchor targets among the first `n` entities, in the order of their
/// handles.
pub open spec fn anchor_targets(nodes: Seq<Option<Node>>, n: int) -> Seq<TargetRecord>
    decreases n,
{
    if n <= 0 || n > nodes.len() {
        Seq::empty()
    } else {
        let before = anchor_targets(nodes, n - 1);
        match nodes[n - 1] {
            Some(node) => if node.anchor_target is Some {
                before.push(
                    TargetRecord { entity: Entity((n - 1) as u64), translation: node.translation },
                )
            } else {
                before
            },
            None => before,
        }
    }
}

/// The entity that `entity` stands for among `nodes`, if it exists.
pub open spec fn node_of(nodes: Seq<Option<Node>>, entity: Entity) -> Option<Node> {
    if entity.0 < nodes.len() {
        nodes[entity.0 as int]
    } else {
        None
    }
}

/// What the camera reads of the entity that `entity` stands for; nothing if
/// there is no handle or no such entity.
pub open spec fn resolved(nodes: Seq<Option<Node>>, entity: Option<Entity>) -> Option<Followable> {
    match entity {
        Some(e) => match node_of(nodes, e) {
            Some(node) => Some(node.followable()),
            None => None,
        },
        None => None,
    }
}

/// The camera after the bind check and the unbind check of one tick among
/// `nodes`.
pub open spec fn camera_after_checks(camera: MainCamera, nodes: Seq<Option<Node>>) -> MainCamera {
    let anchors = dynamic_anchors(nodes, nodes.len() as int);
    let targets = anchor_targets(nodes, nodes.len() as int);
    after_unbind(after_bind(camera, anchors, targets), anchors, targets)
}

/// The camera after one tick of `delta` microseconds among `nodes`. The
/// passes run in a fixed order: the bind check, the unbind check, the
/// binding, the move, and last the static anchor, which therefore has the
/// final say.
pub open spec fn camera_after_tick(camera: MainCamera, nodes: Seq<Option<Node>>, delta: int) -> MainCamera {
    let checked = camera_after_checks(camera, nodes);
    let followed = after_binded(checked, resolved(nodes, checked.followed()));
    let moved = after_move_to(followed, resolved(nodes, followed.followed()), delta);
    after_anchor(moved, static_anchors(nodes, nodes.len() as int))
}

/// Whether the entity at index `i` is the one static anchor among `nodes`.
pub open spec fn only_static_anchor(nodes: Seq<Option<Node>>, i: int) -> bool {
    &&& 0 <= i < nodes.len()
    &&& nodes[i] is Some
    &&& nodes[i]->0.anchor is Some
    &&& forall|j: int|
        0 <= j < nodes.len() && j != i ==> !((#[trigger] nodes[j]) matches Some(node)
            && node.anchor is Some)
}

/// With one static anchor among the entities, the list of static anchors
/// holds its place and nothing else.
pub proof fn lemma_only_static_anchor(nodes: Seq<Option<Node>>, i: int, n: int)
    requires
        only_static_anchor(nodes, i),
        0 <= n <= nodes.len(),
    ensures
        static_anchors(nodes, n) == if n > i {
            seq![nodes[i]->0.translation]
        } else {
            Seq::<Vec3>::empty()
        },
    decreases n,
{
    if n > 0 {
        lemma_only_static_anchor(nodes, i, n - 1);
        if n - 1 == i {
            assert(Seq::<Vec3>::empty().push(nodes[i]->0.translation) =~= seq![
                nodes[i]->0.translation,
            ]);
        }
    }
}

/// Whether the entity at index `i` is the one anchor target among `nodes`.
pub open spec fn only_anchor_target(nodes: Seq<Option<Node>>, i: int) -> bool {
    &&& 0 <= i < nodes.len()
    &&& nodes[i] is Some
    &&& nodes[i]->0.anchor_target is Some
    &&& forall|j: int|
        0 <= j < nodes.len() && j != i ==> !((#[trigger] nodes[j]) matches Some(node)
            && node.anchor_target is Some)
}

/// With one anchor target among the entities, the list of anchor targets
/// holds that entity and nothing else.
pub proof fn lemma_only_anchor_target(nodes: Seq<Option<Node>>, i: int, n: int)
    requires
        only_anchor_target(nodes, i),
        0 <= n <= nodes.len(),
    ensures
        anchor_targets(nodes, n) == if n > i {
            seq![TargetRecord { entity: Entity(i as u64), translation: nodes[i]->0.translation }]
        } else {
            Seq::<TargetRecord>::empty()
        },
    decreases n,
{
    if n > 0 {
        lemma_only_anchor_target(nodes, i, n - 1);
        if n - 1 == i {
            assert(Seq::<TargetRecord>::empty().push(
                TargetRecord { entity: Entity(i as u64), translation: nodes[i]->0.translation },
            ) =~= seq![
                TargetRecord { entity: Entity(i as u64), translation: nodes[i]->0.translation },
            ]);
        }
    }
}

/// Whether the entity at index `i` is a dynamic anchor.
pub open spec fn is_dynamic_anchor(nodes: Seq<Option<Node>>, i: int) -> bool {
    &&& 0 <= i < nodes.len()
    &&& nodes[i] is Some
    &&& nodes[i]->0.dynamic_anchor is Some
}

/// Whether the entity at index `i` is a dynamic anchor that has `target`
/// within its radius.
pub open spec fn anchor_in_reach(nodes: Seq<Option<Node>>, i: int, target: Vec3) -> bool {
    &&& 0 <= i < nodes.len()
    &&& nodes[i] matches Some(node)
    &&& node.dynamic_anchor matches Some(anchor)
    &&& anchor.reaches(node.translation, target)
}

/// The list of dynamic anchors holds each dynamic anchor among the first `n`
/// entities once, with its place, in the rising order of the handles.
pub proof fn lemma_dynamic_anchors(nodes: Seq<Option<Node>>, n: int)
    requires
        0 <= n <= nodes.len(),
        nodes.len() <= u64::MAX,
    ensures
        forall|k: int|
            0 <= k < dynamic_anchors(nodes, n).len() ==> {
                let r = #[trigger] dynamic_anchors(nodes, n)[k];
                &&& r.entity.0 < n
                &&& nodes[r.entity.0 as int] matches Some(node)
                &&& node.dynamic_anchor == Some(r.anchor)
                &&& node.translation == r.translation
            },
        forall|a: int, b: int|
            0 <= a < b < dynamic_anchors(nodes, n).len() ==> (#[trigger] dynamic_anchors(
                nodes,
                n,
            )[a]).entity.0 < (#[trigger] dynamic_anchors(nodes, n)[b]).entity.0,
        forall|j: int|
            0 <= j < n && #[trigger] is_dynamic_anchor(nodes, j) ==> exists|k: int|
                0 <= k < dynamic_anchors(nodes, n).len() && (#[trigger] dynamic_anchors(
                    nodes,
                    n,
                )[k]).entity == Entity(j as u64),
    decreases n,
{
    if n > 0 {
        lemma_dynamic_anchors(nodes, n - 1);
        let before = dynamic_anchors(nodes, n - 1);
        let list = dynamic_anchors(nodes, n);
        assert forall|j: int| 0 <= j < n && #[trigger] is_dynamic_anchor(nodes, j) implies exists|
            k: int,
        | 0 <= k < list.len() && (#[trigger] list[k]).entity == Entity(j as u64) by {
            if j < n - 1 {
                let k = choose|k: int|
                    0 <= k < before.len() && (#[trigger] before[k]).entity == Entity(j as u64);
                assert(list[k] == before[k]);
            } else {
                assert(list[list.len() - 1].entity == Entity(j as u64));
            }
        }
    }
}

/// Among dynamic anchors that have the anchor target within their radius
/// the one with the lowest handle takes the camera. With one anchor target,
/// a camera that no anchor holds, and the entity at index `i` the first
/// dynamic anchor in reach of the target, the checks of a tick leave the
/// camera held by that anchor and on its way to the target.
pub proof fn lemma_lowest_handle_wins(camera: MainCamera, nodes: Seq<Option<Node>>, t: int, i: int)
    requires
        nodes.len() <= u64::MAX,
        camera.anchored is None,
        only_anchor_target(nodes, t),
        anchor_in_reach(nodes, i, nodes[t]->0.translation),
        forall|j: int| 0 <= j < i ==> !anchor_in_reach(nodes, j, nodes[t]->0.translation),
    ensures
        camera_after_checks(camera, nodes) == (MainCamera {
            translation: camera.translation,
            mode: CameraMode::Moving(
                move_to_target(
                    nodes[i]->0.dynamic_anchor->0,
                    camera.translation,
                    Entity(t as u64),
                ),
            ),
            anchored: Some(DynamicallyAnchored(Entity(i as u64))),
        }),
{
    let n = nodes.len() as int;
    let list = dynamic_anchors(nodes, n);
    let target = nodes[t]->0.translation;
    lemma_only_anchor_target(nodes, t, n);
    lemma_dynamic_anchors(nodes, n);
    lemma_first_in_reach(list, target, 0);
    assert(is_dynamic_anchor(nodes, i));
    let at = choose|k: int| 0 <= k < list.len() && (#[trigger] list[k]).entity == Entity(i as u64);
    assert(list[at].holds(target));
    let won = first_in_reach(list, target, 0)->0;
    let j = list[won].entity.0 as int;
    assert(anchor_in_reach(nodes, j, target));
    if won != at {
        if won < at {
            assert(list[won].entity.0 < list[at].entity.0);
        } else {
            assert(!list[at].holds(target));
        }
    }
    assert(won == at);
    lemma_first_of(list, Entity(i as u64), 0);
    let found = first_of(list, Entity(i as u64), 0)->0;
    if found != at {
        if found < at {
            assert(list[found].entity.0 < list[at].entity.0);
        } else {
            assert(list[at].entity != Entity(i as u64));
        }
    }
}

/// Without a dynamic anchor in reach of the one anchor target, a camera
/// that no anchor holds passes the checks of a tick unchanged.
pub proof fn lemma_out_of_reach(camera: MainCamera, nodes: Seq<Option<Node>>, t: int)
    requires
        nodes.len() <= u64::MAX,
        camera.anchored is None,
        only_anchor_target(nodes, t),
        forall|j: int| 0 <= j < nodes.len() ==> !anchor_in_reach(nodes, j, nodes[t]->0.translation),
    ensures
        camera_after_checks(camera, nodes) == camera,
{
    let n = nodes.len() as int;
    let list = dynamic_anchors(nodes, n);
    let target = nodes[t]->0.translation;
    lemma_only_anchor_target(nodes, t, n);
    lemma_dynamic_anchors(nodes, n);
    lemma_first_in_reach(list, target, 0);
    if first_in_reach(list, target, 0) is Some {
        let won = first_in_reach(list, target, 0)->0;
        assert(anchor_in_reach(nodes, list[won].entity.0 as int, target));
    }
}

/// A dynamic anchor lets go of the camera exactly when the anchor target is
/// beyond its radius. With one anchor target and a camera held by the
/// dynamic anchor at index `i`, the checks of a tick leave the camera as it
/// is while the target is within the radius, the rim included; beyond it
/// they send the camera back to the anchor's place and end the hold.
pub proof fn lemma_leaving_lets_go(camera: MainCamera, nodes: Seq<Option<Node>>, t: int, i: int)
    requires
        nodes.len() <= u64::MAX,
        camera.anchored == Some(DynamicallyAnchored(Entity(i as u64))),
        only_anchor_target(nodes, t),
        is_dynamic_anchor(nodes, i),
    ensures
        anchor_in_reach(nodes, i, nodes[t]->0.translation) ==> camera_after_checks(camera, nodes)
            == camera,
        !anchor_in_reach(nodes, i, nodes[t]->0.translation) ==> camera_after_checks(camera, nodes)
            == (MainCamera {
            translation: camera.translation,
            mode: CameraMode::Moving(
                move_to_anchor(
                    nodes[i]->0.dynamic_anchor->0,
                    camera.translation,
                    nodes[i]->0.translation,
                ),
            ),
            anchored: None,
        }),
{
    let n = nodes.len() as int;
    let list = dynamic_anchors(nodes, n);
    lemma_only_anchor_target(nodes, t, n);
    lemma_dynamic_anchors(nodes, n);
    let at = choose|k: int| 0 <= k < list.len() && (#[trigger] list[k]).entity == Entity(i as u64);
    lemma_first_of(list, Entity(i as u64), 0);
    let found = first_of(list, Entity(i as u64), 0)->0;
    if found != at {
        if found < at {
            assert(list[found].entity.0 < list[at].entity.0);
        } else {
            assert(list[at].entity != Entity(i as u64));
        }
    }
}

/// A static anchor, when it is the only one, has the final say: after every
/// tick the camera is at the anchor's place, whatever mode the camera is in
/// and whatever the other passes did.
pub proof fn lemma_static_anchor_wins(world: World, i: int, delta: int)
    requires
        world.camera is Some,
        only_static_anchor(world.nodes@, i),
    ensures
        world.updated(delta).camera is Some,
        world.updated(delta).camera->0.translation == world.nodes@[i]->0.translation,
{
    lemma_only_static_anchor(world.nodes@, i, world.nodes@.len() as int);
}

impl World {
    /// The entity that `entity` stands for, if it exists.
    pub open spec fn node(self, entity: Entity) -> Option<Node> {
        node_of(self.nodes@, entity)
    }

    /// The world after one tick of the camera, `delta` microseconds long.
    /// Without a camera nothing happens, and no tick changes an entity.
    pub open spec fn updated(self, delta: int) -> World {
        match self.camera {
            Some(camera) => World {
                camera: Some(camera_after_tick(camera, self.nodes@, delta)),
                nodes: self.nodes,
            },
            None => self,
        }
    }

    /// Whether the tick that comes finds the camera bound to an entity that
    /// does not exist.
    pub open spec fn dangles(self) -> bool {
        match self.camera {
            Some(camera) => {
                let checked = camera_after_checks(camera, self.nodes@);
                checked.mode is BoundTo && resolved(self.nodes@, checked.followed()) is None
            },
            None => false,
        }
    }

    /// A world without camera and without entities.
    pub fn new() -> (w: World)
        ensures
            w.camera is None,
            w.nodes@ == Seq::<Option<Node>>::empty(),
    {
        World { camera: None, nodes: Vec::new() }
    }

    /// Adds an entity and returns its handle.
    pub fn spawn(&mut self, node: Node) -> (entity: Entity)
        ensures
            entity == Entity(old(self).nodes.len() as u64),
            final(self).nodes@ == old(self).nodes@.push(Some(node)),
            final(self).camera == old(self).camera,
            final(self).node(entity) == Some(node),
    {
        let index: usize = self.nodes.len();
        self.nodes.push(Some(node));
        Entity(index as u64)
    }

    /// Removes an entity; tells whether there was one.
    pub fn despawn(&mut self, entity: Entity) -> (removed: bool)
        ensures
            removed == old(self).node(entity) is Some,
            removed ==> final(self).nodes@ == old(self).nodes@.update(entity.0 as int, None),
            !removed ==> final(self).nodes@ == old(self).nodes@,
            final(self).camera == old(self).camera,
    {
        if entity.0 < self.nodes.len() as u64 {
            let index: usize = entity.0 as usize;
            if self.nodes[index].is_some() {
                self.nodes.set(index, None);
                return true;
            }
        }
        false
    }

    /// The entity that `entity` stands for, if it exists.
    pub fn get(&self, entity: Entity) -> (node: Option<Node>)
        ensures
            node == self.node(entity),
    {
        if entity.0 < self.nodes.len() as u64 {
            self.nodes[entity.0 as usize]
        } else {
            None
        }
    }

    /// Puts `node` in the place of an entity that exists; tells whether it
    /// did.
    pub fn replace(&mut self, entity: Entity, node: Node) -> (replaced: bool)
        ensures
            replaced == old(self).node(entity) is Some,
            replaced ==> final(self).nodes@ == old(self).nodes@.update(entity.0 as int, Some(node)),
            !replaced ==> final(self).nodes@ == old(self).nodes@,
            final(self).camera == old(self).camera,
    {
        if entity.0 < self.nodes.len() as u64 {
            let index: usize = entity.0 as usize;
            if self.nodes[index].is_some() {
                self.nodes.set(index, Some(node));
                return true;
            }
        }
        false
    }

    /// Moves an entity that exists to `translation`; tells whether it did.
    pub fn set_translation(&mut self, entity: Entity, translation: Vec3) -> (moved: bool)
        ensures
            moved == old(self).node(entity) is Some,
            moved ==> final(self).nodes@ == old(self).nodes@.update(
                entity.0 as int,
                Some(Node { translation, ..old(self).node(entity)->0 }),
            ),
            !moved ==> final(self).nodes@ == old(self).nodes@,
            final(self).camera == old(self).camera,
    {
        match self.get(entity) {
            Some(node) => {
                let mut node: Node = node;
                node.translation = translation;
                self.replace(entity, node)
            },
            None => false,
        }
    }

    /// What the camera reads of the entity that `entity` stands for.
    pub fn follow(&self, entity: Option<Entity>) -> (f: Option<Followable>)
        ensures
            f == resolved(self.nodes@, entity),
    {
        match entity {
            Some(e) => match self.get(e) {
                Some(node) => Some(Followable { translation: node.translation, offset: node.offset }),
                None => None,
            },
            None => None,
        }
    }

    /// The places of the static anchors, in the order of their handles.
    pub fn static_anchor_places(&self) -> (v: Vec<Vec3>)
        ensures
            v@ == static_anchors(self.nodes@, self.nodes.len() as int),
    {
        let mut v: Vec<Vec3> = Vec::new();
        let mut i: usize = 0;
        while i < self.nodes.len()
            invariant
                i <= self.nodes.len(),
                v@ == static_anchors(self.nodes@, i as int),
            decreases self.nodes.len() - i,
        {
            if let Some(node) = self.nodes[i] {
                if node.anchor.is_some() {
                    v.push(node.translation);
                }
            }
            i = i + 1;
        }
        v
    }

    /// The dynamic anchors, in the order of their handles.
    pub fn dynamic_anchor_records(&self) -> (v: Vec<AnchorRecord>)
        ensures
            v@ == dynamic_anchors(self.nodes@, self.nodes.len() as int),
    {
        let mut v: Vec<AnchorRecord> = Vec::new();
        let mut i: usize = 0;
        while i < self.nodes.len()
            invariant
                i <= self.nodes.len(),
                v@ == dynamic_anchors(self.nodes@, i as int),
            decreases self.nodes.len() - i,
        {
            if let Some(node) = self.nodes[i] {
                if let Some(anchor) = node.dynamic_anchor {
                    v.push(
                        AnchorRecord {
                            entity: Entity(i as u64),
                            anchor,
                            translation: node.translation,
                        },
                    );
                }
            }
            i = i + 1;
        }
        v
    }

    /// The anchor targets, in the order of their handles.
    pub fn anchor_target_records(&self) -> (v: Vec<TargetRecord>)
        ensures
            v@ == anchor_targets(self.nodes@, self.nodes.len() as int),
    {
        let mut v: Vec<TargetRecord> = Vec::new();
        let mut i: usize = 0;
        while i < self.nodes.len()
            invariant
                i <= self.nodes.len(),
                v@ == anchor_targets(self.nodes@, i as int),
            decreases self.nodes.len() - i,
        {
            if let Some(node) = self.nodes[i] {
                if node.anchor_target.is_some() {
                    v.push(TargetRecord { entity: Entity(i as u64), translation: node.translation });
                }
            }
            i = i + 1;
        }
        v
    }

    /// Sends the camera to the place of `entity`, `offset` away from it, at
    /// an even pace over `duration` microseconds. Without a camera or
    /// without the entity nothing happens; the result tells whether the
    /// camera was sent.
    pub fn move_camera_to(&mut self, entity: Entity, offset: Vec2, duration: u64) -> (sent: bool)
        ensures
            sent == (old(self).camera is Some && old(self).node(entity) is Some),
            final(self).nodes == old(self).nodes,
            sent ==> final(self).camera == Some(
                sent_to(
                    old(self).camera->0,
                    destination(old(self).node(entity)->0.translation, offset),
                    duration,
                    EaseFunction::Linear,
                ),
            ),
            !sent ==> final(self).camera == old(self).camera,
    {
        match (self.camera, self.get(entity)) {
            (Some(camera), Some(node)) => {
                let mut camera: MainCamera = camera;
                move_camera_to(&mut camera, node.translation, offset, duration);
                self.camera = Some(camera);
                true
            },
            _ => false,
        }
    }

    /// Sends the camera to where it would follow `entity`, `offset` away
    /// from it, along `curve` over `duration` microseconds. Without a camera
    /// or without the entity nothing happens; the result tells whether the
    /// camera was sent.
    pub fn move_camera_curve(
        &mut self,
        entity: Entity,
        offset: Vec2,
        duration: u64,
        curve: EaseFunction,
    ) -> (sent: bool)
        ensures
            sent == (old(self).camera is Some && old(self).node(entity) is Some),
            final(self).nodes == old(self).nodes,
            sent ==> final(self).camera == Some(
                sent_to(
                    old(self).camera->0,
                    destination_of(old(self).node(entity)->0.followable(), offset),
                    duration,
                    curve,
                ),
            ),
            !sent ==> final(self).camera == old(self).camera,
    {
        match (self.camera, self.follow(Some(entity))) {
            (Some(camera), Some(followed)) => {
                let mut camera: MainCamera = camera;
                move_camera_curve(&mut camera, followed, offset, duration, curve);
                self.camera = Some(camera);
                true
            },
            _ => false,
        }
    }

    /// Binds the camera to `entity`, in place of whatever moved it before.
    pub fn bind_camera(&mut self, entity: Entity) -> (r: Result<(), BindError>)
        ensures
            final(self).nodes == old(self).nodes,
            old(self).camera is None ==> r == Err::<(), BindError>(BindError::CameraNotFound),
            old(self).camera is Some && old(self).node(entity) is None ==> r == Err::<
                (),
                BindError,
            >(BindError::EntityNotFound),
            old(self).camera is Some && old(self).node(entity) is Some ==> r is Ok,
            r is Err ==> final(self).camera == old(self).camera,
            r is Ok ==> final(self).camera == Some(
                old(self).camera->0.with_mode(CameraMode::BoundTo(Binded(entity))),
            ),
    {
        let found: Option<Entity> = match self.get(entity) {
            Some(_) => Some(entity),
            None => None,
        };
        bind_camera(found, &mut self.camera)
    }

    /// Sends the camera as `move_camera_to` does and hands back the binding
    /// to `entity` that is due when the move is over, if the camera was
    /// sent.
    pub fn move_then_bind_camera(&mut self, entity: Entity, offset: Vec2, duration: u64) -> (then:
        Option<Binded>)
        ensures
            then == (if old(self).camera is Some && old(self).node(entity) is Some {
                Some(Binded(entity))
            } else {
                None
            }),
            final(self).nodes == old(self).nodes,
            then is Some ==> final(self).camera == Some(
                sent_to(
                    old(self).camera->0,
                    destination(old(self).node(entity)->0.translation, offset),
                    duration,
                    EaseFunction::Linear,
                ),
            ),
            then is None ==> final(self).camera == old(self).camera,
    {
        if self.move_camera_to(entity, offset, duration) {
            Some(Binded(entity))
        } else {
            None
        }
    }

    /// Sends the camera as `move_camera_curve` does and hands back the
    /// binding to `entity` that is due when the move is over, if the camera
    /// was sent.
    pub fn move_curve_then_bind_camera(
        &mut self,
        entity: Entity,
        offset: Vec2,
        duration: u64,
        curve: EaseFunction,
    ) -> (then: Option<Binded>)
        ensures
            then == (if old(self).camera is Some && old(self).node(entity) is Some {
                Some(Binded(entity))
            } else {
                None
            }),
            final(self).nodes == old(self).nodes,
            then is Some ==> final(self).camera == Some(
                sent_to(
                    old(self).camera->0,
                    destination_of(old(self).node(entity)->0.followable(), offset),
                    duration,
                    curve,
                ),
            ),
            then is None ==> final(self).camera == old(self).camera,
    {
        if self.move_camera_curve(entity, offset, duration, curve) {
            Some(Binded(entity))
        } else {
            None
        }
    }

    /// One tick of the camera, `delta` microseconds long. The result tells
    /// whether the camera is bound to an entity that does not exist.
    pub fn update_camera(&mut self, delta: u64) -> (dangling: bool)
        ensures
            *final(self) == old(self).updated(delta as int),
            dangling == old(self).dangles(),
    {
        match self.camera {
            Some(camera) => {
                let mut camera: MainCamera = camera;
                let anchors: Vec<AnchorRecord> = self.dynamic_anchor_records();
                let targets: Vec<TargetRecord> = self.anchor_target_records();
                let statics: Vec<Vec3> = self.static_anchor_places();
                bind_to_dyn_anchor(&mut camera, &anchors, &targets);
                unbind_dyn_anchor(&mut camera, &anchors, &targets);
                let followed: Option<Followable> = self.follow(camera.target());
                let dangling: bool = camera_binded(&mut camera, followed);
                let followed: Option<Followable> = self.follow(camera.target());
                camera_move_to(&mut camera, followed, delta);
                anchor(&mut camera, &statics);
                self.camera = Some(camera);
                dangling
            },
            None => false,
        }
    }
}

} // verus!
