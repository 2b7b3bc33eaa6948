//! Shake by trauma: an entity that took trauma is moved off its place by an
//! offset that follows a noise signal and fades as the trauma decays.
//!
//! The offset lives for one frame. `shake` records the true translation and
//! adds the offset at the end of a frame; `restore` puts the true translation
//! back at the start of the next, so whatever else moves the entity works on
//! its true place.

use vstd::prelude::*;
use crate::fixed::{accrue, accrued, clamped, lemma_power_of_zero, lemma_power_range, power, powi,
    product, saturate, saturating_add, scale, ONE};
use crate::vector::{Vec2, Vec3};

verus! {

/// The factor by which each further layer of noise is finer than the last.
pub const LACUNARITY: i64 = 2_000_000;

/// The factor by which each further layer of noise is weaker than the last.
pub const GAIN: i64 = 500_000;

/// How an entity shakes.
#[derive(Clone, Copy, Debug, PartialEq, Eq, Structural)]
pub struct ShakeSettings {
    /// How far the shake can move the entity.
    pub amplitude: i64,
    /// The power to which trauma is raised; a high power makes low traumas
    /// less intense.
    pub trauma_power: u32,
    /// How much trauma is lost each second.
    pub decay_per_second: i64,
    /// How fast the noise signal is walked.
    pub frequency: i64,
    /// How many layers of noise are summed.
    pub octaves: usize,
}

/// What can be seen of a `Shake`.
pub struct ShakeView {
    /// The trauma, from 0 to 1.
    pub trauma: int,
    /// The true translation, while an offset is applied.
    pub reference_translation: Option<Vec3>,
}

/// The trauma of an entity and, while the entity is off its place, the place
/// it belongs to.
#[derive(Clone, Copy, Debug)]
pub struct Shake {
    trauma: i64,
    reference_translation: Option<Vec3>,
}

/// The trauma left of `trauma` after `delta` microseconds at the rate
/// `decay` per second: never under 0 and never over 1.
pub open spec fn decayed(trauma: int, decay: int, delta: int) -> int {
    clamped(trauma - accrued(decay, delta), 0, ONE as int)
}

/// The trauma left of `trauma` after `ticks` ticks of `delta` microseconds.
pub open spec fn decayed_over(trauma: int, decay: int, delta: int, ticks: nat) -> int
    decreases ticks,
{
    if ticks == 0 {
        trauma
    } else {
        decayed(decayed_over(trauma, decay, delta, (ticks - 1) as nat), decay, delta)
    }
}

/// The strength of the shake at a trauma: the trauma raised to the power of
/// the settings.
pub open spec fn intensity(trauma: int, settings: ShakeSettings) -> int {
    power(trauma, settings.trauma_power as nat)
}

/// The offset along one axis: amplitude times strength times noise.
pub open spec fn offset(amplitude: int, amount: int, noise: int) -> int {
    product(product(amplitude, amount), noise)
}

/// A translation moved in the plane by the offset of each axis.
pub open spec fn displaced(translation: Vec3, amplitude: int, amount: int, noise: Vec2) -> Vec3 {
    Vec3 {
        x: saturate(translation.x + offset(amplitude, amount, noise.x as int)) as i64,
        y: saturate(translation.y + offset(amplitude, amount, noise.y as int)) as i64,
        z: translation.z,
    }
}

/// An entity's shake and translation after the start of a frame: the true
/// translation is back and the record of it is cleared.
pub open spec fn restored(shake: ShakeView, translation: Vec3) -> (ShakeView, Vec3) {
    match shake.reference_translation {
        Some(t) => (ShakeView { trauma: shake.trauma, reference_translation: None }, t),
        None => (shake, translation),
    }
}

/// An entity's shake and translation after the end of a frame of `delta`
/// microseconds. The trauma decays. If any strength is left, the translation
/// is recorded and then moved by the offset that `noise` gives; if none is
/// left, neither changes.
pub open spec fn shaken(
    shake: ShakeView,
    translation: Vec3,
    settings: ShakeSettings,
    delta: int,
    noise: Vec2,
) -> (ShakeView, Vec3) {
    let trauma = decayed(shake.trauma, settings.decay_per_second as int, delta);
    let amount = intensity(trauma, settings);
    if amount <= 0 {
        (ShakeView { trauma, reference_translation: shake.reference_translation }, translation)
    } else {
        (
            ShakeView { trauma, reference_translation: Some(translation) },
            displaced(translation, settings.amplitude as int, amount, noise),
        )
    }
}

/// The two points at which the noise signal is read after `elapsed`
/// microseconds, one for each axis: both at `frequency` times the time, on
/// the lines 1 and 2.
pub open spec fn noise_points(settings: ShakeSettings, elapsed: int) -> (Vec2, Vec2) {
    let x = accrued(settings.frequency as int, elapsed) as i64;
    (Vec2 { x, y: ONE }, Vec2 { x, y: (2 * ONE) as i64 })
}

impl ShakeSettings {
    /// The settings of an entity that has none of its own.
    pub open spec fn standard() -> ShakeSettings {
        ShakeSettings {
            amplitude: 100_000_000,
            trauma_power: 2,
            decay_per_second: 800_000,
            frequency: 15_000_000,
            octaves: 1,
        }
    }

    /// The settings that hold for an entity: its own, or else the standard
    /// ones.
    pub open spec fn resolved(own: Option<ShakeSettings>) -> ShakeSettings {
        match own {
            Some(s) => s,
            None => ShakeSettings::standard(),
        }
    }

    /// The settings that hold for an entity: its own, or else the standard
    /// ones.
    pub fn effective(own: Option<ShakeSettings>) -> (s: ShakeSettings)
        ensures
            s == ShakeSettings::resolved(own),
    {
        match own {
            Some(s) => s,
            None => ShakeSettings::default(),
        }
    }

    /// The two points at which the noise signal is read after `elapsed`
    /// microseconds.
    pub fn noise_positions(&self, elapsed: u64) -> (p: (Vec2, Vec2))
        ensures
            p == noise_points(*self, elapsed as int),
    {
        let x: i64 = accrue(self.frequency, elapsed);
        (Vec2 { x, y: ONE }, Vec2 { x, y: 2 * ONE })
    }
}

impl Default for ShakeSettings {
    fn default() -> (s: ShakeSettings)
        ensures
            s == ShakeSettings::standard(),
    {
        ShakeSettings {
            amplitude: 100_000_000,
            trauma_power: 2,
            decay_per_second: 800_000,
            frequency: 15_000_000,
            octaves: 1,
        }
    }
}

/// The trauma left of `trauma` after `delta` microseconds at the rate
/// `rate` per second.
pub fn decay(trauma: i64, rate: i64, delta: u64) -> (left: i64)
    ensures
        left == decayed(trauma as int, rate as int, delta as int),
        0 <= left <= ONE,
{
    let lost: i64 = accrue(rate, delta);
    let left: i128 = (trauma as i128) - (lost as i128);
    if left < 0 {
        0
    } else if left > ONE as i128 {
        ONE
    } else {
        left as i64
    }
}

impl View for Shake {
    type V = ShakeView;

    closed spec fn view(&self) -> ShakeView {
        ShakeView {
            trauma: self.trauma as int,
            reference_translation: self.reference_translation,
        }
    }
}

impl Shake {
    /// The trauma of a shake is a scalar from 0 to 1.
    #[verifier::type_invariant]
    spec fn wf(self) -> bool {
        0 <= self.trauma <= ONE
    }

    /// A shake without trauma.
    pub fn new() -> (s: Shake)
        ensures
            s@ == (ShakeView { trauma: 0, reference_translation: None }),
    {
        Shake { trauma: 0, reference_translation: None }
    }

    /// The trauma, from 0 to 1.
    pub fn trauma(&self) -> (t: i64)
        ensures
            t == self@.trauma,
            0 <= t <= ONE,
    {
        proof {
            use_type_invariant(self);
        }
        self.trauma
    }

    /// The true translation of the entity, while an offset is applied.
    pub fn reference_translation(&self) -> (r: Option<Vec3>)
        ensures
            r == self@.reference_translation,
    {
        self.reference_translation
    }

    /// Whether any trauma is left.
    pub fn is_shaking(&self) -> (b: bool)
        ensures
            b == (self@.trauma > 0),
    {
        self.trauma > 0
    }

    /// Adds the specified trauma. Trauma is held between 0 and 1, and decays
    /// over time.
    pub fn add_trauma(&mut self, amount: i64)
        ensures
            final(self)@.trauma == clamped(old(self)@.trauma + amount, 0, ONE as int),
            final(self)@.reference_translation == old(self)@.reference_translation,
    {
        proof {
            use_type_invariant(&*self);
        }
        let sum: i64 = saturating_add(self.trauma, amount);
        self.trauma = if sum < 0 {
            0
        } else if sum > ONE {
            ONE
        } else {
            sum
        };
    }
}

impl Default for Shake {
    fn default() -> (s: Shake)
        ensures
            s@ == (ShakeView { trauma: 0, reference_translation: None }),
    {
        Shake::new()
    }
}

/// Trauma added in two parts accumulates as if added at once, up to the
/// ceiling of 1.
pub proof fn lemma_trauma_accumulates(trauma: int, first: int, second: int)
    requires
        0 <= trauma <= ONE,
        0 <= first,
        0 <= second,
    ensures
        clamped(clamped(trauma + first, 0, ONE as int) + second, 0, ONE as int) == clamped(
            trauma + first + second,
            0,
            ONE as int,
        ),
{
}

/// Trauma decays linearly: after `ticks` equal ticks it has lost `ticks`
/// times the loss of one, and it stops at 0 and stays there.
pub proof fn lemma_decay_linear(trauma: int, decay: int, delta: int, ticks: nat)
    requires
        0 <= trauma <= ONE,
        0 <= decay,
        0 <= delta,
    ensures
        0 <= accrued(decay, delta),
        decayed_over(trauma, decay, delta, ticks) == clamped(
            trauma - ticks * accrued(decay, delta),
            0,
            trauma,
        ),
        0 <= decayed_over(trauma, decay, delta, ticks) <= trauma,
        ticks * accrued(decay, delta) >= trauma ==> decayed_over(trauma, decay, delta, ticks) == 0,
    decreases ticks,
{
    let l = accrued(decay, delta);
    let raw = (decay * delta) / 1_000_000;
    assert(0 <= raw) by (nonlinear_arith)
        requires
            0 <= decay,
            0 <= delta,
            raw == (decay * delta) / 1_000_000,
    ;
    if ticks > 0 {
        lemma_decay_linear(trauma, decay, delta, (ticks - 1) as nat);
        assert(ticks * l == (ticks - 1) * l + l) by (nonlinear_arith);
    } else {
        assert(ticks * l == 0) by (nonlinear_arith)
            requires
                ticks == 0,
        ;
    }
}

/// A shake that has no strength left moves nothing and records nothing; one
/// that has any records the true translation. Without trauma, and with a
/// power above 0, there is no strength.
pub proof fn lemma_shake_needs_strength(
    shake: ShakeView,
    translation: Vec3,
    settings: ShakeSettings,
    delta: int,
    noise: Vec2,
)
    ensures
        ({
            let amount = intensity(
                decayed(shake.trauma, settings.decay_per_second as int, delta),
                settings,
            );
            let after = shaken(shake, translation, settings, delta, noise);
            &&& amount <= 0 ==> after.1 == translation && after.0.reference_translation
                == shake.reference_translation
            &&& amount > 0 ==> after.0.reference_translation == Some(translation)
            &&& after.0.trauma == 0 && settings.trauma_power > 0 ==> amount == 0
            &&& after.1.z == translation.z
        }),
{
    let trauma = decayed(shake.trauma, settings.decay_per_second as int, delta);
    if trauma == 0 && settings.trauma_power > 0 {
        lemma_power_of_zero(settings.trauma_power as nat);
    }
}

/// The shake never moves an entity further along an axis than the
/// amplitude, as long as the noise stays between -1 and 1.
pub proof fn lemma_offset_within_amplitude(amplitude: i64, amount: int, noise: int)
    requires
        0 <= amount <= ONE,
        -ONE <= noise <= ONE,
    ensures
        amplitude >= 0 ==> -amplitude <= offset(amplitude as int, amount, noise) <= amplitude,
        amplitude <= 0 ==> amplitude <= offset(amplitude as int, amount, noise) <= -amplitude,
{
    let a = amplitude as int;
    let raw = (a * amount) / 1_000_000;
    assert((a >= 0 ==> 0 <= raw <= a) && (a <= 0 ==> a <= raw <= 0)) by (nonlinear_arith)
        requires
            0 <= amount <= 1_000_000,
            raw == (a * amount) / 1_000_000,
    ;
    let reach = product(a, amount);
    assert(reach == raw);
    let far = (reach * noise) / 1_000_000;
    assert((reach >= 0 ==> -reach <= far <= reach) && (reach <= 0 ==> reach <= far <= -reach))
        by (nonlinear_arith)
        requires
            -1_000_000 <= noise <= 1_000_000,
            far == (reach * noise) / 1_000_000,
    ;
}

/// The shake of one frame is undone at the start of the next: if no offset
/// was applied when the frame's shake began, then after `shaken` and
/// `restored` the translation is what it was, whatever the trauma and the
/// noise, and no record is left.
pub proof fn lemma_restore_undoes_shake(
    shake: ShakeView,
    translation: Vec3,
    settings: ShakeSettings,
    delta: int,
    noise: Vec2,
)
    requires
        shake.reference_translation is None,
    ensures
        ({
            let after = shaken(shake, translation, settings, delta, noise);
            let back = restored(after.0, after.1);
            &&& back.1 == translation
            &&& back.0.reference_translation is None
            &&& back.0.trauma == after.0.trauma
        }),
{
}

/// The start of a frame: puts the true translation back if an offset was
/// applied, and clears the record of it.
pub fn restore(state: &mut Shake, translation: &mut Vec3)
    ensures
        (final(state)@, *final(translation)) == restored(old(state)@, *old(translation)),
{
    proof {
        use_type_invariant(&*state);
    }
    match state.reference_translation {
        Some(t) => {
            *translation = t;
            state.reference_translation = None;
        },
        None => {},
    }
}

/// The end of a frame of `delta` microseconds. `settings` are the entity's
/// own, if it has any; `noise` holds what the noise signal gives at the two
/// points of `noise_positions`.
pub fn shake(
    state: &mut Shake,
    translation: &mut Vec3,
    settings: Option<ShakeSettings>,
    delta: u64,
    noise: Vec2,
)
    ensures
        (final(state)@, *final(translation)) == shaken(
            old(state)@,
            *old(translation),
            ShakeSettings::resolved(settings),
            delta as int,
            noise,
        ),
{
    proof {
        use_type_invariant(&*state);
    }
    let settings: ShakeSettings = ShakeSettings::effective(settings);
    let trauma: i64 = decay(state.trauma, settings.decay_per_second, delta);
    state.trauma = trauma;
    proof {
        lemma_power_range(trauma as int, settings.trauma_power as nat);
    }
    let amount: i64 = powi(trauma, settings.trauma_power);
    if amount <= 0 {
        return ;
    }
    state.reference_translation = Some(*translation);
    let reach: i64 = scale(settings.amplitude, amount);
    translation.x = saturating_add(translation.x, scale(reach, noise.x));
    translation.y = saturating_add(translation.y, scale(reach, noise.y));
}

/// Adds the given trauma to every shake.
pub fn add_trauma(shakes: &mut Vec<Shake>, trauma: i64)
    ensures
        final(shakes).len() == old(shakes).len(),
        forall|i: int|
            0 <= i < old(shakes).len() ==> {
                &&& (#[trigger] final(shakes)[i])@.trauma == clamped(
                    old(shakes)[i]@.trauma + trauma,
                    0,
                    ONE as int,
                )
                &&& final(shakes)[i]@.reference_translation == old(shakes)[i]@.reference_translation
            },
{
    let mut i: usize = 0;
    while i < shakes.len()
        invariant
            i <= shakes.len(),
            shakes.len() == old(shakes).len(),
            forall|j: int|
                0 <= j < i ==> {
                    &&& (#[trigger] shakes[j])@.trauma == clamped(
                        old(shakes)[j]@.trauma + trauma,
                        0,
                        ONE as int,
                    )
                    &&& shakes[j]@.reference_translation == old(shakes)[j]@.reference_translation
                },
            forall|j: int| i <= j < shakes.len() ==> #[trigger] shakes[j] == old(shakes)[j],
        decreases shakes.len() - i,
    {
        let mut s: Shake = shakes[i];
        s.add_trauma(trauma);
        shakes.set(i, s);
        i = i + 1;
    }
}

} // verus!
