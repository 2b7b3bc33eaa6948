//! Shake of the whole screen by chance: while trauma lasts, every tick draws
//! a new offset for the cameras to drift to.

use rand::Rng;
use vstd::prelude::*;
use crate::fixed::{product, scale, ONE};
use crate::shake::{decay, decayed};
use crate::vector::Vec2;

verus! {

/// The shake of the screen: how far it reaches, the trauma that drives it,
/// how fast cameras drift to a drawn offset, and how fast the trauma decays.
#[derive(Clone, Copy, Debug, PartialEq, Eq, Structural)]
pub struct ScreenShake {
    pub max_offset: i64,
    pub trauma: i64,
    pub camera_decay: i64,
    pub trauma_decay: i64,
}

/// The strength of the shake at a trauma: its square.
pub open spec fn strength(trauma: int) -> int {
    product(trauma, trauma)
}

/// The offset along one axis at a strength, for a draw from -1 to 1.
pub open spec fn drawn_offset(max_offset: int, strength: int, draw: int) -> int {
    product(product(max_offset, strength), draw)
}

impl ScreenShake {
    /// The shake after a tick of `delta` microseconds: the trauma has
    /// decayed, the rest is as it was.
    pub open spec fn ticked(self, delta: int) -> ScreenShake {
        ScreenShake {
            trauma: decayed(self.trauma as int, self.trauma_decay as int, delta) as i64,
            ..self
        }
    }

    /// The offset that the cameras drift to in a tick that drew `x` and `y`:
    /// none without strength.
    pub open spec fn target(self, x: int, y: int) -> Option<Vec2> {
        let s = strength(self.trauma as int);
        if s > 0 {
            Some(
                Vec2 {
                    x: drawn_offset(self.max_offset as int, s, x) as i64,
                    y: drawn_offset(self.max_offset as int, s, y) as i64,
                },
            )
        } else {
            None
        }
    }

    /// Sets the reach, the drift of the cameras and the decay of the trauma.
    pub fn set(&mut self, max_offset: i64, camera_decay: i64, trauma_decay: i64) -> (this: &mut Self)
        ensures
            *this == (ScreenShake {
                max_offset,
                camera_decay,
                trauma_decay,
                trauma: old(self).trauma,
            }),
            *final(self) == *final(this),
    {
        self.max_offset = max_offset;
        self.camera_decay = camera_decay;
        self.trauma_decay = trauma_decay;
        self
    }

    /// Sets how far the shake reaches.
    pub fn max_offset(&mut self, max_offset: i64) -> (this: &mut Self)
        ensures
            *this == (ScreenShake { max_offset, ..*old(self) }),
            *final(self) == *final(this),
    {
        self.max_offset = max_offset;
        self
    }

    /// Sets how fast the cameras drift to a drawn offset.
    pub fn camera_decay(&mut self, camera_decay: i64) -> (this: &mut Self)
        ensures
            *this == (ScreenShake { camera_decay, ..*old(self) }),
            *final(self) == *final(this),
    {
        self.camera_decay = camera_decay;
        self
    }

    /// Sets how much trauma is lost each second.
    pub fn trauma_decay(&mut self, trauma_decay: i64) -> (this: &mut Self)
        ensures
            *this == (ScreenShake { trauma_decay, ..*old(self) }),
            *final(self) == *final(this),
    {
        self.trauma_decay = trauma_decay;
        self
    }

    /// Shakes with all the trauma there is.
    pub fn shake(&mut self)
        ensures
            *final(self) == (ScreenShake { trauma: ONE, ..*old(self) }),
    {
        self.shake_with(ONE);
    }

    /// Shakes with the given trauma, in place of what was left.
    pub fn shake_with(&mut self, trauma: i64)
        ensures
            *final(self) == (ScreenShake { trauma, ..*old(self) }),
    {
        self.trauma = trauma;
    }
}

impl Default for ScreenShake {
    fn default() -> (s: ScreenShake)
        ensures
            s == (ScreenShake { max_offset: 0, trauma: 0, camera_decay: 0, trauma_decay: 0 }),
    {
        ScreenShake { max_offset: 0, trauma: 0, camera_decay: 0, trauma_decay: 0 }
    }
}

/// Draws a number by `rand::Rng::gen_range` from the generator of the
/// thread, `rand::thread_rng`. Claimed of it: the number lies in the range
/// handed over, `low` included and `high` not. Which number comes is not
/// said, and two draws may differ. An empty range makes `gen_range` panic
/// and is not accepted. The generator takes its seed from the operating
/// system when a thread first draws, and panics if the system has none.
#[verifier::external_body]
fn draw_between(low: i64, high: i64) -> (r: i64)
    requires
        low < high,
    ensures
        low <= r < high,
{
    rand::thread_rng().gen_range(low..high)
}

/// One tick of `delta` microseconds with the draws `x` and `y` for the two
/// axes. Hands back the offset that the cameras are to drift to, none
/// without strength, and lets the trauma decay.
pub fn screen_shake_with(state: &mut ScreenShake, delta: u64, x: i64, y: i64) -> (target: Option<
    Vec2,
>)
    ensures
        target == old(state).target(x as int, y as int),
        *final(state) == old(state).ticked(delta as int),
{
    let s: i64 = scale(state.trauma, state.trauma);
    let reach: i64 = scale(state.max_offset, s);
    let target: Option<Vec2> = if s > 0 {
        Some(Vec2 { x: scale(reach, x), y: scale(reach, y) })
    } else {
        None
    };
    state.trauma = decay(state.trauma, state.trauma_decay, delta);
    target
}

/// One tick of `delta` microseconds: draws a number from -1 to 1 for each
/// axis and does what `screen_shake_with` does with them.
pub fn screen_shake(state: &mut ScreenShake, delta: u64) -> (target: Option<Vec2>)
    ensures
        *final(state) == old(state).ticked(delta as int),
        exists|x: int, y: int|
            -ONE <= x < ONE && -ONE <= y < ONE && target == #[trigger] old(state).target(x, y),
        target is Some <==> strength(old(state).trauma as int) > 0,
{
    let x: i64 = draw_between(-ONE, ONE);
    let y: i64 = draw_between(-ONE, ONE);
    screen_shake_with(state, delta, x, y)
}

} // verus!
