//! Sound effects: the distance model that turns source and listener positions
//! into a gain, and the control-side state of short and persistent effects.
pub mod persistent;
pub mod short;

use vstd::prelude::*;
use crate::GAIN_ONE;
use crate::engine::Command;

verus! {

/// `r` is the square root of `n` rounded down.
pub open spec fn is_floor_sqrt(n: nat, r: nat) -> bool {
    r * r <= n && n < (r + 1) * (r + 1)
}

/// The whole number `r` with `r * r <= n < (r + 1) * (r + 1)`.
pub open spec fn floor_sqrt(n: nat) -> nat {
    choose|r: nat| #[trigger] is_floor_sqrt(n, r)
}

/// `floor_sqrt` is the one whole number whose square bounds `n` so.
pub proof fn lemma_floor_sqrt_unique(n: nat, r: nat)
    requires
        r * r <= n,
        n < (r + 1) * (r + 1),
    ensures
        floor_sqrt(n) == r,
{
    assert(is_floor_sqrt(n, r));
    let q = floor_sqrt(n);
    assert(q * q <= n && n < (q + 1) * (q + 1));
    if q < r {
        assert((q + 1) * (q + 1) <= r * r) by (nonlinear_arith)
            requires q + 1 <= r;
    } else if q > r {
        assert((r + 1) * (r + 1) <= q * q) by (nonlinear_arith)
            requires r + 1 <= q;
    }
}

/// The floor of the square root of `n`.
pub fn isqrt(n: u128) -> (r: u64)
    requires
        n < 0x4_0000_0000_0000_0000,
    ensures
        r == floor_sqrt(n as nat),
{
    let mut lo: u128 = 0;
    let mut hi: u128 = 0x10_0000_0000;
    assert(hi * hi == 0x100_0000_0000_0000_0000) by (nonlinear_arith)
        requires hi == 0x10_0000_0000;
    while hi - lo > 1
        invariant
            lo < hi <= 0x10_0000_0000,
            lo * lo <= n,
            n < hi * hi,
        decreases hi - lo,
    {
        let mid: u128 = lo + (hi - lo) / 2;
        assert(mid * mid <= 0x100_0000_0000_0000_0000) by (nonlinear_arith)
            requires mid <= 0x10_0000_0000;
        if mid * mid <= n {
            lo = mid;
        } else {
            hi = mid;
        }
    }
    proof {
        lemma_floor_sqrt_unique(n as nat, lo as nat);
    }
    lo as u64
}

/// The square of the distance between two points.
pub open spec fn square_distance(p: [i32; 3], q: [i32; 3]) -> nat {
    ((p@[0] - q@[0]) * (p@[0] - q@[0]) + (p@[1] - q@[1]) * (p@[1] - q@[1]) + (p@[2] - q@[2]) * (p@[2]
        - q@[2])) as nat
}

/// The distance between two points, rounded down to a whole number.
pub open spec fn euclidean_distance(p: [i32; 3], q: [i32; 3]) -> nat {
    floor_sqrt(square_distance(p, q))
}

/// `(x - y)^2` for two coordinates.
fn square_gap(x: i32, y: i32) -> (r: u128)
    ensures
        r == (x - y) * (x - y),
        r <= 0x1_0000_0000_0000_0000,
{
    let d: i64 = x as i64 - y as i64;
    let m: u128 = if d < 0 { (-d) as u128 } else { d as u128 };
    assert(m * m <= 0x1_0000_0000_0000_0000) by (nonlinear_arith)
        requires m <= 0x1_0000_0000;
    assert(m * m == (x - y) * (x - y)) by (nonlinear_arith)
        requires m == d || m == -d, d == x - y;
    m * m
}

/// The distance between two points, rounded down.
pub fn distance_between(p: [i32; 3], q: [i32; 3]) -> (r: u64)
    ensures
        r == euclidean_distance(p, q),
{
    let s: u128 = square_gap(p[0], q[0]) + square_gap(p[1], q[1]) + square_gap(p[2], q[2]);
    isqrt(s)
}

/// Fixed-point representation of the unit attenuation of the distance model:
/// fine enough that the linear model takes a distinct value at each whole
/// distance between any two bounds of `u32`.
pub const ATTENUATION_ONE: u64 = 0x1_0000_0000;

/// Gain of the linear model at distance `d`, in units of `ATTENUATION_ONE`:
/// unity up to `a`, falling in a straight line to nothing at `b`, nothing
/// beyond (rounded down).
pub open spec fn linear_gain(a: int, b: int, d: int) -> int {
    if d <= a {
        ATTENUATION_ONE as int
    } else if d <= b {
        (ATTENUATION_ONE as int) * (b - d) / (b - a)
    } else {
        0
    }
}

/// Gain of the squared model at distance `d`: the linear gain squared.
pub open spec fn pow2_gain(a: int, b: int, d: int) -> int {
    if d <= a {
        ATTENUATION_ONE as int
    } else if d <= b {
        linear_gain(a, b, d) * linear_gain(a, b, d) / (ATTENUATION_ONE as int)
    } else {
        0
    }
}

/// Distance model, used to compute the gain of sound effects.
#[derive(Clone, Copy, Debug, PartialEq, Eq, Structural)]
pub enum DistanceModel {
    /// if d <= a then 1
    ///
    /// if a <= d <= b then 1-((d-a)/(b-a))
    ///
    /// if d >= b then 0
    Linear(u32, u32),
    /// if d <= a then 1
    ///
    /// if a <= d <= b then (1-((d-a)/(b-a)))^2
    ///
    /// if d >= b then 0
    Pow2(u32, u32),
}

impl DistanceModel {
    /// Its bounds are ordered: `a < b`.
    pub open spec fn wf(self) -> bool {
        match self {
            DistanceModel::Linear(a, b) => a < b,
            DistanceModel::Pow2(a, b) => a < b,
        }
    }

    /// The gain at distance `d`.
    pub open spec fn gain_at(self, d: int) -> int {
        match self {
            DistanceModel::Linear(a, b) => linear_gain(a as int, b as int, d),
            DistanceModel::Pow2(a, b) => pow2_gain(a as int, b as int, d),
        }
    }

    /// The linear model, when `a < b`.
    pub fn linear(a: u32, b: u32) -> (r: Option<DistanceModel>)
        ensures
            a < b ==> r == Some(DistanceModel::Linear(a, b)),
            a >= b ==> r is None,
    {
        if a < b {
            Some(DistanceModel::Linear(a, b))
        } else {
            None
        }
    }

    /// The squared model, when `a < b`.
    pub fn pow2(a: u32, b: u32) -> (r: Option<DistanceModel>)
        ensures
            a < b ==> r == Some(DistanceModel::Pow2(a, b)),
            a >= b ==> r is None,
    {
        if a < b {
            Some(DistanceModel::Pow2(a, b))
        } else {
            None
        }
    }

    /// The gain at distance `d`.
    pub fn gain(&self, d: u64) -> (r: u64)
        requires
            self.wf(),
        ensures
            r == self.gain_at(d as int),
            r <= ATTENUATION_ONE,
    {
        match *self {
            DistanceModel::Linear(a, b) => linear_gain_of(a, b, d),
            DistanceModel::Pow2(a, b) => {
                let l = linear_gain_of(a, b, d);
                if d as u64 <= a as u64 || d > b as u64 {
                    l
                } else {
                    assert(l * l <= ATTENUATION_ONE * ATTENUATION_ONE) by (nonlinear_arith)
                        requires l <= ATTENUATION_ONE;
                    assert(l * l / (ATTENUATION_ONE as int) <= ATTENUATION_ONE) by (nonlinear_arith)
                        requires l * l <= ATTENUATION_ONE * ATTENUATION_ONE;
                    ((l as u128) * (l as u128) / (ATTENUATION_ONE as u128)) as u64
                }
            },
        }
    }

    /// The gain of a source at `pos` heard at `listener`.
    pub fn distance(&self, pos: [i32; 3], listener: [i32; 3]) -> (r: u64)
        requires
            self.wf(),
        ensures
            r == self.gain_at(euclidean_distance(pos, listener) as int),
            r <= ATTENUATION_ONE,
    {
        self.gain(distance_between(pos, listener))
    }
}

/// The linear gain between `a` and `b` at distance `d`.
fn linear_gain_of(a: u32, b: u32, d: u64) -> (r: u64)
    requires
        a < b,
    ensures
        r == linear_gain(a as int, b as int, d as int),
        r <= ATTENUATION_ONE,
{
    if d <= a as u64 {
        ATTENUATION_ONE
    } else if d <= b as u64 {
        let k: u64 = b as u64 - d;
        let den: u64 = b as u64 - a as u64;
        assert((ATTENUATION_ONE as int) * (k as int) / (den as int) <= ATTENUATION_ONE) by (nonlinear_arith)
            requires k < den, den > 0, k >= 0;
        assert((ATTENUATION_ONE as int) * (k as int) <= ATTENUATION_ONE * 0xffff_ffff) by (nonlinear_arith)
            requires k <= 0xffff_ffff, k >= 0;
        let num: u128 = (ATTENUATION_ONE as u128) * (k as u128);
        (num / (den as u128)) as u64
    } else {
        0
    }
}

/// `g` attenuated by `att`, in units of `ATTENUATION_ONE`, rounded down.
pub open spec fn attenuated(g: int, att: int) -> int {
    g * att / (ATTENUATION_ONE as int)
}

/// A gain attenuated by a gain of the distance model.
pub fn attenuate(g: u32, att: u64) -> (r: u32)
    requires
        att <= ATTENUATION_ONE,
    ensures
        r == attenuated(g as int, att as int),
        r <= g,
{
    assert((g as int) * (att as int) <= 0xffff_ffff * ATTENUATION_ONE) by (nonlinear_arith)
        requires g <= 0xffff_ffff, att <= ATTENUATION_ONE, g >= 0, att >= 0;
    assert((g as int) * (att as int) / (ATTENUATION_ONE as int) <= g) by (nonlinear_arith)
        requires att <= ATTENUATION_ONE, g >= 0, att >= 0;
    ((g as u128) * (att as u128) / (ATTENUATION_ONE as u128)) as u32
}

/// The linear model gives exactly unity at `a` and nothing at `b`, and falls
/// strictly in between; the squared model gives the linear gain squared.
pub proof fn lemma_distance_model(a: u32, b: u32, d1: int, d2: int)
    requires
        a < b,
        a <= d1 < d2 <= b,
    ensures
        DistanceModel::Linear(a, b).gain_at(a as int) == ATTENUATION_ONE,
        DistanceModel::Linear(a, b).gain_at(b as int) == 0,
        DistanceModel::Linear(a, b).gain_at(d1) > DistanceModel::Linear(a, b).gain_at(d2),
        DistanceModel::Pow2(a, b).gain_at(d2) == DistanceModel::Linear(a, b).gain_at(d2)
            * DistanceModel::Linear(a, b).gain_at(d2) / (ATTENUATION_ONE as int),
{
    let one = ATTENUATION_ONE as int;
    let den = b - a;
    assert(den <= one);
    let x2 = one * (b - d2);
    assert(x2 / den < one) by (nonlinear_arith)
        requires x2 == one * (b - d2), b - d2 < den, den > 0, one > 0, b - d2 >= 0;
    if d1 > a {
        let x1 = one * (b - d1);
        assert(x1 >= x2 + den) by (nonlinear_arith)
            requires x1 == one * (b - d1), x2 == one * (b - d2), d2 - d1 >= 1, den <= one, one > 0;
        assert(x1 / den >= x2 / den + 1) by (nonlinear_arith)
            requires x1 >= x2 + den, den > 0, x2 >= 0;
    }
}

/// The control-side settings of the effects.
pub struct State {
    /// position of the listener
    pub listener: [i32; 3],
    /// how effects fade with distance
    pub distance_model: DistanceModel,
    /// gain of the effects
    pub volume: u32,
    /// whether persistent effects are silenced
    pub paused: bool,
    /// number of short effects in the catalog
    pub short_effects: usize,
    /// number of persistent effects in the catalog
    pub persistent_effects: usize,
    /// the sources of each persistent effect
    pub persistent_positions: Vec<Vec<[i32; 3]>>,
}

/// set the volume of sound effects; it takes effect for future short effects
/// and, through the returned command, for persistent effects
pub fn set_volume(state: &mut crate::State, v: u32) -> (r: Command)
    requires
        old(state).wf(),
        v <= GAIN_ONE,
    ensures
        final(state).wf(),
        *final(state) == (crate::State { effect: State { volume: v, ..old(state).effect }, ..*old(state) }),
        persistent::is_volumes_command(*final(state), r),
{
    state.effect.volume = v;
    update_volume(state)
}

/// the command that gives every persistent effect its gain
pub fn update_volume(state: &crate::State) -> (r: Command)
    requires
        state.wf(),
    ensures
        persistent::is_volumes_command(*state, r),
{
    persistent::update_volume_for_all(state)
}

/// return the volume of sound effects
pub fn volume(state: &crate::State) -> (r: u32)
    ensures
        r == state.effect.volume,
{
    state.effect.volume
}

/// silence the persistent effects, holding their positions
pub fn pause(state: &mut crate::State) -> (r: Command)
    ensures
        *final(state) == (crate::State { effect: State { paused: true, ..old(state).effect }, ..*old(state) }),
        r == Command::MutePersistentEffects,
{
    state.effect.paused = true;
    Command::MutePersistentEffects
}

/// let the persistent effects sound again
pub fn resume(state: &mut crate::State) -> (r: Command)
    ensures
        *final(state) == (crate::State { effect: State { paused: false, ..old(state).effect }, ..*old(state) }),
        r == Command::UnmutePersistentEffects,
{
    state.effect.paused = false;
    Command::UnmutePersistentEffects
}

/// return whether the persistent effects are silenced
pub fn is_paused(state: &crate::State) -> (r: bool)
    ensures
        r == state.effect.paused,
{
    state.effect.paused
}

/// set the position of the listener
pub fn set_listener(state: &mut crate::State, pos: [i32; 3])
    ensures
        *final(state) == (crate::State { effect: State { listener: pos, ..old(state).effect }, ..*old(state) }),
{
    state.effect.listener = pos;
}

/// return the position of the listener
pub fn listener(state: &crate::State) -> (r: [i32; 3])
    ensures
        r == state.effect.listener,
{
    state.effect.listener
}

/// set the distance model
pub fn set_distance_model(state: &mut crate::State, d: DistanceModel)
    requires
        d.wf(),
    ensures
        *final(state) == (crate::State { effect: State { distance_model: d, ..old(state).effect }, ..*old(state) }),
{
    state.effect.distance_model = d;
}

} // verus!
