//! Orbital dynamics: the list of acceleration models that is added to the
//! pull of the central body, the third bodies of a point-mass model, and the
//! layout of the vector that is propagated.
//!
//! The propagated vector has 42 entries: position and velocity, then the 36
//! entries of the state transition matrix, row by row.
use std::sync::Arc;
use vstd::prelude::*;

verus! {

/// Entries of position and velocity.
pub const STATE_SIZE: usize = 6;

/// Entries of the state transition matrix.
pub const STM_SIZE: usize = 36;

/// Entries of the vector that is propagated.
pub const PROP_VEC_SIZE: usize = 42;

/// Where entry `(i, j)` of the state transition matrix lies in the
/// propagated vector.
pub open spec fn stm_slot(i: int, j: int) -> int {
    6 + 6 * i + j
}

/// Whether `m` has six rows of six entries.
pub open spec fn is_six_by_six<T>(m: Seq<Vec<T>>) -> bool {
    m.len() == 6 && forall|i: int| 0 <= i < 6 ==> (#[trigger] m[i]).len() == 6
}

/// The propagated vector of a state with its transition matrix `stm`: the
/// state, then the matrix row by row.  `None` unless the state has six
/// entries and the matrix six rows of six.
pub fn propagation_vector<T: Copy>(state: &Vec<T>, stm: &Vec<Vec<T>>) -> (r: Option<Vec<T>>)
    ensures
        r.is_some() <==> state@.len() == 6 && is_six_by_six(stm@),
        r matches Some(v) ==> {
            &&& v@.len() == 42
            &&& forall|k: int| 0 <= k < 6 ==> v@[k] == state@[k]
            &&& forall|i: int, j: int|
                0 <= i < 6 && 0 <= j < 6 ==> v@[#[trigger] stm_slot(i, j)] == stm@[i]@[j]
        },
{
    if state.len() != STATE_SIZE || stm.len() != STATE_SIZE {
        return None;
    }
    let mut i: usize = 0;
    while i < 6
        invariant
            i <= 6,
            stm@.len() == 6,
            forall|r: int| 0 <= r < i ==> (#[trigger] stm@[r]).len() == 6,
        decreases 6 - i,
    {
        if stm[i].len() != STATE_SIZE {
            return None;
        }
        i += 1;
    }
    let mut v: Vec<T> = Vec::new();
    let mut k: usize = 0;
    while k < 6
        invariant
            k <= 6,
            state@.len() == 6,
            v@.len() == k,
            forall|n: int| 0 <= n < k ==> v@[n] == state@[n],
        decreases 6 - k,
    {
        v.push(state[k]);
        k += 1;
    }
    i = 0;
    while i < 6
        invariant
            i <= 6,
            state@.len() == 6,
            is_six_by_six(stm@),
            v@.len() == 6 + 6 * i,
            forall|n: int| 0 <= n < 6 ==> v@[n] == state@[n],
            forall|r: int, c: int|
                0 <= r < i && 0 <= c < 6 ==> v@[#[trigger] stm_slot(r, c)] == stm@[r]@[c],
        decreases 6 - i,
    {
        let mut j: usize = 0;
        while j < 6
            invariant
                i < 6,
                j <= 6,
                state@.len() == 6,
                is_six_by_six(stm@),
                v@.len() == 6 + 6 * i + j,
                forall|n: int| 0 <= n < 6 ==> v@[n] == state@[n],
                forall|r: int, c: int|
                    0 <= r < i && 0 <= c < 6 ==> v@[#[trigger] stm_slot(r, c)] == stm@[r]@[c],
                forall|c: int|
                    0 <= c < j ==> v@[#[trigger] stm_slot(i as int, c)] == stm@[i as int]@[c],
            decreases 6 - j,
        {
            v.push(stm[i][j]);
            j += 1;
        }
        i += 1;
    }
    Some(v)
}

/// The propagated vector of a state without transition matrix: the state,
/// then `fill` in each of the 36 entries of the matrix.  `None` unless the
/// state has six entries.
pub fn padded_vector<T: Copy>(state: &Vec<T>, fill: T) -> (r: Option<Vec<T>>)
    ensures
        r.is_some() <==> state@.len() == 6,
        r matches Some(v) ==> {
            &&& v@.len() == 42
            &&& forall|k: int| 0 <= k < 6 ==> v@[k] == state@[k]
            &&& forall|k: int| 6 <= k < 42 ==> v@[k] == fill
        },
{
    if state.len() != STATE_SIZE {
        return None;
    }
    let mut v: Vec<T> = Vec::new();
    let mut k: usize = 0;
    while k < 42
        invariant
            k <= 42,
            state@.len() == 6,
            v@.len() == k,
            forall|n: int| 0 <= n < k && n < 6 ==> v@[n] == state@[n],
            forall|n: int| 6 <= n < k ==> v@[n] == fill,
        decreases 42 - k,
    {
        if k < 6 {
            v.push(state[k]);
        } else {
            v.push(fill);
        }
        k += 1;
    }
    Some(v)
}

/// The state and the transition matrix that a propagated vector holds: its
/// first six entries, and the other 36 as six rows of six.  `None` unless
/// the vector has 42 entries.
pub fn split_vector<T: Copy>(vector: &Vec<T>) -> (r: Option<(Vec<T>, Vec<Vec<T>>)>)
    ensures
        r.is_some() <==> vector@.len() == 42,
        r matches Some((state, stm)) ==> {
            &&& state@ == vector@.subrange(0, 6)
            &&& is_six_by_six(stm@)
            &&& forall|i: int, j: int|
                0 <= i < 6 && 0 <= j < 6 ==> stm@[i]@[j] == vector@[#[trigger] stm_slot(i, j)]
        },
{
    if vector.len() != PROP_VEC_SIZE {
        return None;
    }
    let mut state: Vec<T> = Vec::new();
    let mut k: usize = 0;
    while k < 6
        invariant
            k <= 6,
            vector@.len() == 42,
            state@ == vector@.subrange(0, k as int),
        decreases 6 - k,
    {
        state.push(vector[k]);
        assert(vector@.subrange(0, k as int + 1) == vector@.subrange(0, k as int).push(
            vector@[k as int],
        ));
        k += 1;
    }
    let mut stm: Vec<Vec<T>> = Vec::new();
    let mut i: usize = 0;
    while i < 6
        invariant
            i <= 6,
            vector@.len() == 42,
            stm@.len() == i,
            forall|r: int| 0 <= r < i ==> (#[trigger] stm@[r]).len() == 6,
            forall|r: int, c: int|
                0 <= r < i && 0 <= c < 6 ==> stm@[r]@[c] == vector@[#[trigger] stm_slot(r, c)],
        decreases 6 - i,
    {
        let mut row: Vec<T> = Vec::new();
        let mut j: usize = 0;
        while j < 6
            invariant
                i < 6,
                j <= 6,
                vector@.len() == 42,
                row@.len() == j,
                forall|c: int| 0 <= c < j ==> row@[c] == vector@[#[trigger] stm_slot(i as int, c)],
            decreases 6 - j,
        {
            row.push(vector[6 + 6 * i + j]);
            j += 1;
        }
        stm.push(row);
        i += 1;
    }
    Some((state, stm))
}

/// Laying a state and its transition matrix out and splitting the vector
/// again gives them back: `split_vector` undoes `propagation_vector`.
pub proof fn lemma_split_undoes_layout<T>(
    state: Seq<T>,
    stm: Seq<Vec<T>>,
    vector: Seq<T>,
    state2: Seq<T>,
    stm2: Seq<Vec<T>>,
)
    requires
        state.len() == 6,
        is_six_by_six(stm),
        vector.len() == 42,
        forall|k: int| 0 <= k < 6 ==> vector[k] == state[k],
        forall|i: int, j: int|
            0 <= i < 6 && 0 <= j < 6 ==> vector[#[trigger] stm_slot(i, j)] == stm[i]@[j],
        state2 == vector.subrange(0, 6),
        is_six_by_six(stm2),
        forall|i: int, j: int|
            0 <= i < 6 && 0 <= j < 6 ==> stm2[i]@[j] == vector[#[trigger] stm_slot(i, j)],
    ensures
        state2 == state,
        forall|i: int| 0 <= i < 6 ==> (#[trigger] stm2[i])@ == stm[i]@,
{
    assert(state2 =~= state);
    assert forall|i: int| 0 <= i < 6 implies (#[trigger] stm2[i])@ == stm[i]@ by {
        assert forall|j: int| 0 <= j < 6 implies stm2[i]@[j] == stm[i]@[j] by {
            assert(stm2[i]@[j] == vector[stm_slot(i, j)]);
        }
        assert(stm2[i]@ =~= stm[i]@);
    }
}

/// Every entry past the state belongs to exactly one entry of the transition
/// matrix: `k = stm_slot(i, j)` has one solution with `i, j < 6`.
pub proof fn lemma_stm_slot_bijective(k: int)
    requires
        6 <= k < 42,
    ensures
        stm_slot((k - 6) / 6, (k - 6) % 6) == k,
        0 <= (k - 6) / 6 < 6,
        0 <= (k - 6) % 6 < 6,
        forall|i: int, j: int|
            0 <= i < 6 && 0 <= j < 6 && #[trigger] stm_slot(i, j) == k ==> {
                &&& i == (k - 6) / 6
                &&& j == (k - 6) % 6
            },
{
}

/// Whether `duals` holds three dual numbers of seven parts each: a real
/// part and the six partial derivatives with respect to position and
/// velocity.
pub open spec fn is_three_by_seven<T>(duals: Seq<Vec<T>>) -> bool {
    duals.len() == 3 && forall|i: int| 0 <= i < 3 ==> (#[trigger] duals[i]).len() == 7
}

/// The dual parts of a dual number: all but the first of its parts.
pub open spec fn dual_parts<T>(parts: Seq<T>) -> Seq<T> {
    parts.subrange(1, parts.len() as int)
}

/// The derivative of the state and its Jacobian, from the velocity and the
/// acceleration as dual numbers.  Each dual number is given by its parts,
/// the real part first.  Entries `0 .. 3` of the derivative are the real
/// parts of the velocity and entries `3 .. 6` those of the acceleration;
/// rows `0 .. 3` of the Jacobian are the dual parts of the velocity and rows
/// `3 .. 6` those of the acceleration.  `None` unless both are three dual
/// numbers of seven parts.
pub fn state_and_jacobian<T: Copy>(
    velocity: &Vec<Vec<T>>,
    acceleration: &Vec<Vec<T>>,
) -> (r: Option<(Vec<T>, Vec<Vec<T>>)>)
    ensures
        r.is_some() <==> is_three_by_seven(velocity@) && is_three_by_seven(acceleration@),
        r matches Some((fx, grad)) ==> {
            &&& fx@.len() == 6
            &&& is_six_by_six(grad@)
            &&& forall|i: int| 0 <= i < 3 ==> fx@[i] == (#[trigger] velocity@[i])@[0]
            &&& forall|i: int| 0 <= i < 3 ==> fx@[3 + i] == (#[trigger] acceleration@[i])@[0]
            &&& forall|i: int| 0 <= i < 3 ==> grad@[i]@ == dual_parts((#[trigger] velocity@[i])@)
            &&& forall|i: int|
                0 <= i < 3 ==> grad@[3 + i]@ == dual_parts((#[trigger] acceleration@[i])@)
        },
{
    if velocity.len() != 3 || acceleration.len() != 3 {
        return None;
    }
    let mut fx: Vec<T> = Vec::new();
    let mut grad: Vec<Vec<T>> = Vec::new();
    let mut i: usize = 0;
    while i < 6
        invariant
            i <= 6,
            velocity@.len() == 3,
            acceleration@.len() == 3,
            fx@.len() == i,
            grad@.len() == i,
            forall|r: int| 0 <= r < i && r < 3 ==> (#[trigger] velocity@[r]).len() == 7,
            forall|r: int| 0 <= r < i - 3 ==> (#[trigger] acceleration@[r]).len() == 7,
            forall|r: int| 0 <= r < i ==> (#[trigger] grad@[r]).len() == 6,
            forall|r: int| 0 <= r < i && r < 3 ==> fx@[r] == (#[trigger] velocity@[r])@[0],
            forall|r: int| 0 <= r < i - 3 ==> fx@[3 + r] == (#[trigger] acceleration@[r])@[0],
            forall|r: int|
                0 <= r < i && r < 3 ==> grad@[r]@ == dual_parts((#[trigger] velocity@[r])@),
            forall|r: int|
                0 <= r < i - 3 ==> grad@[3 + r]@ == dual_parts((#[trigger] acceleration@[r])@),
        decreases 6 - i,
    {
        let parts = if i < 3 {
            &velocity[i]
        } else {
            &acceleration[i - 3]
        };
        if parts.len() != 7 {
            return None;
        }
        fx.push(parts[0]);
        let mut row: Vec<T> = Vec::new();
        let mut j: usize = 1;
        while j < 7
            invariant
                1 <= j <= 7,
                parts@.len() == 7,
                row@ == parts@.subrange(1, j as int),
            decreases 7 - j,
        {
            row.push(parts[j]);
            assert(parts@.subrange(1, j as int + 1) == parts@.subrange(1, j as int).push(
                parts@[j as int],
            ));
            j += 1;
        }
        grad.push(row);
        i += 1;
    }
    Some((fx, grad))
}

/// How the time that light takes from a body to the observer is accounted
/// for in the position of the body.
#[derive(Clone, Copy, Debug, PartialEq, Eq, Structural)]
pub enum LTCorr {
    /// The body is taken where it is at the epoch of the state.
    NoCorrection,
    LightTime,
    Abberation,
}

/// The frame of a celestial body, named by the path that leads to the body
/// in the ephemeris.
#[derive(Clone, Debug)]
pub struct Frame {
    pub ephem_path: Vec<usize>,
}

impl View for Frame {
    type V = Seq<usize>;

    open spec fn view(&self) -> Seq<usize> {
        self.ephem_path@
    }
}

impl Frame {
    /// Whether the two frames are centered on the same body.
    pub fn same_center(&self, other: &Frame) -> (b: bool)
        ensures
            b == (self@ == other@),
    {
        if self.ephem_path.len() != other.ephem_path.len() {
            return false;
        }
        let mut i: usize = 0;
        while i < self.ephem_path.len()
            invariant
                i <= self@.len(),
                self@.len() == other@.len(),
                forall|k: int| 0 <= k < i ==> self@[k] == other@[k],
            decreases self@.len() - i,
        {
            if self.ephem_path[i] != other.ephem_path[i] {
                return false;
            }
            i += 1;
        }
        assert(self@ =~= other@);
        true
    }
}

/// Point masses that pull on the spacecraft besides the central body.
/// `cosm` is the ephemeris from which their positions are read.
pub struct PointMasses<C> {
    pub bodies: Vec<Frame>,
    pub cosm: Arc<C>,
    pub correction: LTCorr,
}

impl<C> PointMasses<C> {
    /// Point masses at `bodies`, seen without light-time correction.
    pub fn new(bodies: Vec<Frame>, cosm: Arc<C>) -> (pm: Arc<Self>)
        ensures
            pm.bodies == bodies,
            pm.cosm == cosm,
            pm.correction == LTCorr::NoCorrection,
    {
        Arc::new(Self::with_correction(bodies, cosm, LTCorr::NoCorrection))
    }

    /// Point masses at `bodies`, seen with the light-time correction
    /// `correction`.
    pub fn with_correction(bodies: Vec<Frame>, cosm: Arc<C>, correction: LTCorr) -> (pm: Self)
        ensures
            pm.bodies == bodies,
            pm.cosm == cosm,
            pm.correction == correction,
    {
        Self { bodies, cosm, correction }
    }

    /// Point masses at bodies that the caller has looked up by name.
    pub fn specific(bodies: Vec<Frame>, cosm: Arc<C>, correction: LTCorr) -> (pm: Self)
        ensures
            pm.bodies == bodies,
            pm.cosm == cosm,
            pm.correction == correction,
    {
        Self { bodies, cosm, correction }
    }

    /// Whether body `i` of the list pulls in a frame centered on `center`:
    /// it is in the list and is not the central body itself.
    pub open spec fn pulls(&self, center: &Frame, i: int) -> bool {
        0 <= i < self.bodies@.len() && self.bodies@[i]@ != center@
    }

    /// The bodies whose pull is added in a frame centered on `center`: all
    /// but the central body itself, in the order of the list, by their
    /// places in it.
    pub fn third_bodies(&self, center: &Frame) -> (picked: Vec<usize>)
        ensures
            forall|k: int|
                0 <= k < picked@.len() ==> self.pulls(center, #[trigger] picked@[k] as int),
            forall|k: int, l: int| 0 <= k < l < picked@.len() ==> picked@[k] < picked@[l],
            forall|i: int| #[trigger] self.pulls(center, i) ==> picked@.contains(i as usize),
    {
        let mut picked: Vec<usize> = Vec::new();
        let mut i: usize = 0;
        while i < self.bodies.len()
            invariant
                i <= self.bodies@.len(),
                forall|k: int| 0 <= k < picked@.len() ==> (#[trigger] picked@[k]) < i,
                forall|k: int|
                    0 <= k < picked@.len() ==> self.pulls(center, #[trigger] picked@[k] as int),
                forall|k: int, l: int| 0 <= k < l < picked@.len() ==> picked@[k] < picked@[l],
                forall|n: int|
                    n < i && #[trigger] self.pulls(center, n) ==> picked@.contains(n as usize),
            decreases self.bodies@.len() - i,
        {
            if !self.bodies[i].same_center(center) {
                let ghost before = picked@;
                picked.push(i);
                assert(picked@[before.len() as int] == i);
                assert forall|n: int|
                    n < i + 1 && #[trigger] self.pulls(center, n) implies picked@.contains(
                    n as usize,
                ) by {
                    if n < i {
                        let k = choose|k: int| 0 <= k < before.len() && before[k] == n as usize;
                        assert(picked@[k] == n as usize);
                    }
                }
            }
            i += 1;
        }
        picked
    }
}

/// Orbital dynamics: the pull of the central body, which is always part of
/// them, and the accelerations of `accel_models`, added in the order of the
/// list.
#[derive(Clone, Debug)]
pub struct OrbitalDynamics<M> {
    pub accel_models: Vec<M>,
}

impl<M> OrbitalDynamics<M> {
    /// Dynamics in which no body pulls but the central one.
    pub fn two_body() -> (d: Arc<Self>)
        ensures
            d.accel_models@ == Seq::<M>::empty(),
    {
        Self::new(Vec::new())
    }

    /// Dynamics with the acceleration models `accel_models`.
    pub fn new(accel_models: Vec<M>) -> (d: Arc<Self>)
        ensures
            d.accel_models == accel_models,
    {
        Arc::new(Self::new_raw(accel_models))
    }

    /// Dynamics with the acceleration models `accel_models`, not yet shared,
    /// so that models can still be added.
    pub fn new_raw(accel_models: Vec<M>) -> (d: Self)
        ensures
            d.accel_models == accel_models,
    {
        Self { accel_models }
    }

    /// Dynamics with the one acceleration model `accel_model`.
    pub fn from_model(accel_model: M) -> (d: Arc<Self>)
        ensures
            d.accel_models@ == seq![accel_model],
    {
        let mut models: Vec<M> = Vec::new();
        models.push(accel_model);
        Self::new(models)
    }

    /// Adds `accel_model` behind the models that are there.
    pub fn add_model(&mut self, accel_model: M)
        ensures
            final(self).accel_models@ == old(self).accel_models@.push(accel_model),
    {
        self.accel_models.push(accel_model);
    }

    /// These dynamics with `accel_model` added behind their models.
    pub fn with_model(self, accel_model: M) -> (d: Arc<Self>)
        ensures
            d.accel_models@ == self.accel_models@.push(accel_model),
    {
        let mut me = self;
        me.add_model(accel_model);
        Arc::new(me)
    }
}

impl<C> OrbitalDynamics<Arc<PointMasses<C>>> {
    /// Dynamics with the point masses `bodies` as their one model.
    pub fn point_masses(bodies: Vec<Frame>, cosm: Arc<C>) -> (d: Arc<Self>)
        ensures
            d.accel_models@.len() == 1,
            d.accel_models@[0].bodies == bodies,
            d.accel_models@[0].cosm == cosm,
            d.accel_models@[0].correction == LTCorr::NoCorrection,
    {
        Self::from_model(PointMasses::new(bodies, cosm))
    }
}

} // verus!
