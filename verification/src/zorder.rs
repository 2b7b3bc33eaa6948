//! Draw order: a logical order that is added to the depth an entity had
//! before it was ordered.

use vstd::prelude::*;
use crate::fixed::{saturate, saturating_add};
use crate::vector::Vec3;

verus! {

/// The height of the band of `y` that shares one unit of draw order.
pub const BAND: i64 = 10_000;

/// The offset in `y` from an entity's translation at which its draw order is
/// taken.
#[derive(Clone, Copy, Debug, Default, PartialEq, Eq, Structural)]
pub struct YOrigin(pub i64);

/// The order in which entities are drawn.
#[derive(Clone, Copy, Debug, Default, PartialEq, Eq, Structural)]
pub struct ZOrder(pub i64);

/// The depth that an entity had before it was first ordered.
#[derive(Clone, Copy, Debug, Default, PartialEq, Eq, Structural)]
pub struct UnorderedZ(pub i64);

/// The draw order of one entity: the order it asks for, the depth it had
/// before it was first ordered, and whether the order was set since the
/// depth was last computed.
#[derive(Clone, Copy, Debug, PartialEq, Eq, Structural)]
pub struct Ordered {
    pub order: ZOrder,
    pub unordered: Option<UnorderedZ>,
    pub changed: bool,
}

/// The order of an entity at `translation` whose origin is `origin`: the
/// lower on the screen, the later it is drawn.
pub open spec fn order_at(translation: Vec3, origin: YOrigin) -> ZOrder {
    ZOrder(((-(origin.0 + translation.y)) / (BAND as int)) as i64)
}

impl Ordered {
    /// The entity once it asks for `order`.
    pub open spec fn with_order(self, order: ZOrder) -> Ordered {
        Ordered { order, unordered: self.unordered, changed: true }
    }

    /// An entity that asks for `order` and was never ordered.
    pub fn new(order: ZOrder) -> (r: Ordered)
        ensures
            r == (Ordered { order, unordered: None, changed: true }),
    {
        Ordered { order, unordered: None, changed: true }
    }

    /// Asks for `order`.
    pub fn set(&mut self, order: ZOrder)
        ensures
            *final(self) == old(self).with_order(order),
    {
        self.order = order;
        self.changed = true;
    }
}

/// An entity's draw order and translation after a pass. If the order was
/// not set since the last pass, nothing changes. The first pass keeps the
/// depth it finds and adds the order to it; every later pass adds the order
/// to the depth that was kept.
pub open spec fn ordered(record: Ordered, translation: Vec3) -> (Ordered, Vec3) {
    if !record.changed {
        (record, translation)
    } else {
        let base = match record.unordered {
            Some(b) => b,
            None => UnorderedZ(translation.z),
        };
        (
            Ordered { order: record.order, unordered: Some(base), changed: false },
            Vec3 {
                x: translation.x,
                y: translation.y,
                z: saturate(base.0 + record.order.0) as i64,
            },
        )
    }
}

/// The order of a band is a whole number of units within the `i64` range.
pub proof fn lemma_order_at_fits(translation: Vec3, origin: YOrigin)
    ensures
        i64::MIN <= (-(origin.0 + translation.y)) / (BAND as int) <= i64::MAX,
{
}

/// Once a depth was kept it is never taken again: a new order is added to the
/// depth kept, wherever the entity is by then.
pub proof fn lemma_base_is_kept(record: Ordered, order: ZOrder, translation: Vec3)
    requires
        record.unordered is Some,
    ensures
        ordered(record.with_order(order), translation).0.unordered == record.unordered,
        record.unordered matches Some(base) ==> ordered(
            record.with_order(order),
            translation,
        ).1.z == saturate(base.0 + order.0),
{
}

/// Asking for the same order again changes nothing: the pass after it puts
/// the entity at the depth where it is.
pub proof fn lemma_order_is_idempotent(record: Ordered, order: ZOrder, translation: Vec3)
    ensures
        ({
            let once = ordered(record.with_order(order), translation);
            let twice = ordered(once.0.with_order(order), once.1);
            twice == once
        }),
{
}

/// The order that `origin` gives to an entity at `translation`.
pub fn derived_order(translation: Vec3, origin: YOrigin) -> (order: ZOrder)
    ensures
        order == order_at(translation, origin),
{
    let sum: i128 = (origin.0 as i128) + (translation.y as i128);
    let q: i128 = match (-sum).checked_div_euclid(BAND as i128) {
        Some(q) => q,
        None => 0,
    };
    ZOrder(q as i64)
}

/// Sets the order of an entity from where it is; to be called whenever its
/// translation or its origin changed.
pub fn origin_y(record: &mut Ordered, translation: Vec3, origin: YOrigin)
    ensures
        *final(record) == old(record).with_order(order_at(translation, origin)),
{
    record.set(derived_order(translation, origin));
}

/// One pass over an entity: computes its depth if its order was set.
pub fn order_z(record: &mut Ordered, translation: &mut Vec3)
    ensures
        (*final(record), *final(translation)) == ordered(*old(record), *old(translation)),
{
    if !record.changed {
        return ;
    }
    let base: UnorderedZ = match record.unordered {
        Some(b) => b,
        None => UnorderedZ(translation.z),
    };
    record.unordered = Some(base);
    record.changed = false;
    translation.z = saturating_add(base.0, record.order.0);
}

} // verus!
