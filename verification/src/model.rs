//! The mixed-layer model core.
//!
//! [`CLASS`] owns the five state variables (boundary-layer depth, potential
//! temperature and its jump, specific humidity and its jump) plus the elapsed
//! time, and the fixed configuration. [`CLASS::update`] performs one explicit
//! Euler step: every tendency is evaluated against the pre-step state, and
//! either all six fields change together or, where the exact arithmetic
//! cannot produce the step (a zero divisor, or a value out of the mantissa
//! range), nothing changes and the step reports [`StepError::Degenerate`].

use crate::fixed::{
    fadd_ok, fdiv, fdiv_ok, fmul, fmul_ok, fneg_ok, fsub_ok, Fp, SCALE,
};
use vstd::prelude::*;

verus! {

/// The moisture coefficient 0.61 of the virtual potential temperature,
/// at the fixed-point scale.
pub const VIRT_COEFF: i128 = 610_000_000;

/// Time control: total simulated duration and the fixed step size, seconds.
#[derive(Clone, Copy)]
pub struct TimeControl {
    pub runtime: Fp,
    pub dt: Fp,
}

/// The state the model starts from.
#[derive(Clone, Copy)]
pub struct InitialState {
    pub h_0: Fp,
    pub theta_0: Fp,
    pub dtheta_0: Fp,
    pub q_0: Fp,
    pub dq_0: Fp,
}

/// Mixed-layer physics parameters: surface fluxes, advection, lapse rates,
/// entrainment efficiency and large-scale divergence.
#[derive(Clone, Copy)]
pub struct MixedLayer {
    pub wtheta: Fp,
    pub wq: Fp,
    pub advtheta: Fp,
    pub advq: Fp,
    pub gammatheta: Fp,
    pub gammaq: Fp,
    pub beta: Fp,
    pub div_u: Fp,
}

/// The full, immutable configuration of one simulation run.
#[derive(Clone, Copy)]
pub struct Config {
    pub time_control: TimeControl,
    pub initial_state: InitialState,
    pub mixed_layer: MixedLayer,
}

/// Why a step could not be taken.
#[derive(Clone, Copy, PartialEq, Eq, Structural, Debug)]
pub enum StepError {
    /// The exact arithmetic could not produce the step: a divisor was zero
    /// or an intermediate left the mantissa range.
    Degenerate,
}

/// The model core: five state variables, the elapsed time, and the
/// configuration it was built from. `steps` counts the completed steps.
#[derive(Clone, Copy)]
pub struct CLASS {
    pub h: Fp,
    pub theta: Fp,
    pub dtheta: Fp,
    pub q: Fp,
    pub dq: Fp,
    pub t: Fp,
    pub cfg: Config,
    pub steps: Ghost<int>,
}

/// Mantissa of the virtual heat flux `wthetav = wtheta + 0.61 * theta * wq`.
pub open spec fn wthetav_m(s: CLASS) -> int {
    s.cfg.mixed_layer.wtheta@ + fmul(fmul(VIRT_COEFF as int, s.theta@), s.cfg.mixed_layer.wq@)
}

pub open spec fn wthetav_ok(s: CLASS) -> bool {
    &&& fmul_ok(VIRT_COEFF as int, s.theta@)
    &&& fmul_ok(fmul(VIRT_COEFF as int, s.theta@), s.cfg.mixed_layer.wq@)
    &&& fadd_ok(
        s.cfg.mixed_layer.wtheta@,
        fmul(fmul(VIRT_COEFF as int, s.theta@), s.cfg.mixed_layer.wq@),
    )
}

/// Mantissa of the entrainment virtual heat flux `wthetave = -beta * wthetav`.
pub open spec fn wthetave_m(s: CLASS) -> int {
    fmul(-s.cfg.mixed_layer.beta@, wthetav_m(s))
}

pub open spec fn wthetave_ok(s: CLASS) -> bool {
    &&& wthetav_ok(s)
    &&& fneg_ok(s.cfg.mixed_layer.beta@)
    &&& fmul_ok(-s.cfg.mixed_layer.beta@, wthetav_m(s))
}

/// Mantissa of the virtual potential temperature jump across the layer top,
/// `dthetav = (theta + dtheta) * (1 + 0.61 * (q + dq)) - theta * (1 + 0.61 * q)`.
pub open spec fn dthetav_m(s: CLASS) -> int {
    fmul(s.theta@ + s.dtheta@, SCALE + fmul(VIRT_COEFF as int, s.q@ + s.dq@)) - fmul(
        s.theta@,
        SCALE + fmul(VIRT_COEFF as int, s.q@),
    )
}

pub open spec fn dthetav_ok(s: CLASS) -> bool {
    &&& fadd_ok(s.theta@, s.dtheta@)
    &&& fadd_ok(s.q@, s.dq@)
    &&& fmul_ok(VIRT_COEFF as int, s.q@ + s.dq@)
    &&& fadd_ok(SCALE as int, fmul(VIRT_COEFF as int, s.q@ + s.dq@))
    &&& fmul_ok(s.theta@ + s.dtheta@, SCALE + fmul(VIRT_COEFF as int, s.q@ + s.dq@))
    &&& fmul_ok(VIRT_COEFF as int, s.q@)
    &&& fadd_ok(SCALE as int, fmul(VIRT_COEFF as int, s.q@))
    &&& fmul_ok(s.theta@, SCALE + fmul(VIRT_COEFF as int, s.q@))
    &&& fsub_ok(
        fmul(s.theta@ + s.dtheta@, SCALE + fmul(VIRT_COEFF as int, s.q@ + s.dq@)),
        fmul(s.theta@, SCALE + fmul(VIRT_COEFF as int, s.q@)),
    )
}

/// Mantissa of the entrainment velocity `we = max(0, -wthetave / dthetav)`.
pub open spec fn we_m(s: CLASS) -> int {
    if fdiv(-wthetave_m(s), dthetav_m(s)) < 0 {
        0
    } else {
        fdiv(-wthetave_m(s), dthetav_m(s))
    }
}

pub open spec fn we_ok(s: CLASS) -> bool {
    &&& wthetave_ok(s)
    &&& dthetav_ok(s)
    &&& fneg_ok(wthetave_m(s))
    &&& fdiv_ok(-wthetave_m(s), dthetav_m(s))
}

/// Mantissa of the subsidence velocity `ws = -div_u * h`.
pub open spec fn ws_m(s: CLASS) -> int {
    fmul(-s.cfg.mixed_layer.div_u@, s.h@)
}

pub open spec fn ws_ok(s: CLASS) -> bool {
    &&& fneg_ok(s.cfg.mixed_layer.div_u@)
    &&& fmul_ok(-s.cfg.mixed_layer.div_u@, s.h@)
}

/// Mantissa of the depth tendency `htend = we + ws`.
pub open spec fn htend_m(s: CLASS) -> int {
    we_m(s) + ws_m(s)
}

pub open spec fn htend_ok(s: CLASS) -> bool {
    we_ok(s) && ws_ok(s) && fadd_ok(we_m(s), ws_m(s))
}

/// Mantissa of the entrainment heat flux `wthetae = -we * dtheta`.
pub open spec fn wthetae_m(s: CLASS) -> int {
    fmul(-we_m(s), s.dtheta@)
}

pub open spec fn wthetae_ok(s: CLASS) -> bool {
    we_ok(s) && fneg_ok(we_m(s)) && fmul_ok(-we_m(s), s.dtheta@)
}

/// Mantissa of the entrainment moisture flux `wqe = -we * dq`.
pub open spec fn wqe_m(s: CLASS) -> int {
    fmul(-we_m(s), s.dq@)
}

pub open spec fn wqe_ok(s: CLASS) -> bool {
    we_ok(s) && fneg_ok(we_m(s)) && fmul_ok(-we_m(s), s.dq@)
}

/// Mantissa of the heat budget `thetatend = (wtheta - wthetae) / h + advtheta`.
pub open spec fn thetatend_m(s: CLASS) -> int {
    fdiv(s.cfg.mixed_layer.wtheta@ - wthetae_m(s), s.h@) + s.cfg.mixed_layer.advtheta@
}

pub open spec fn thetatend_ok(s: CLASS) -> bool {
    &&& wthetae_ok(s)
    &&& fsub_ok(s.cfg.mixed_layer.wtheta@, wthetae_m(s))
    &&& fdiv_ok(s.cfg.mixed_layer.wtheta@ - wthetae_m(s), s.h@)
    &&& fadd_ok(
        fdiv(s.cfg.mixed_layer.wtheta@ - wthetae_m(s), s.h@),
        s.cfg.mixed_layer.advtheta@,
    )
}

/// Mantissa of the jump evolution `dthetatend = gammatheta * we - thetatend`,
/// plus a free-troposphere term that is currently always zero.
pub open spec fn dthetatend_m(s: CLASS) -> int {
    fmul(s.cfg.mixed_layer.gammatheta@, we_m(s)) - thetatend_m(s)
}

pub open spec fn dthetatend_ok(s: CLASS) -> bool {
    &&& thetatend_ok(s)
    &&& fmul_ok(s.cfg.mixed_layer.gammatheta@, we_m(s))
    &&& fsub_ok(fmul(s.cfg.mixed_layer.gammatheta@, we_m(s)), thetatend_m(s))
}

/// Mantissa of the moisture budget `qtend = (wq - wqe) / h + advq`.
pub open spec fn qtend_m(s: CLASS) -> int {
    fdiv(s.cfg.mixed_layer.wq@ - wqe_m(s), s.h@) + s.cfg.mixed_layer.advq@
}

pub open spec fn qtend_ok(s: CLASS) -> bool {
    &&& wqe_ok(s)
    &&& fsub_ok(s.cfg.mixed_layer.wq@, wqe_m(s))
    &&& fdiv_ok(s.cfg.mixed_layer.wq@ - wqe_m(s), s.h@)
    &&& fadd_ok(fdiv(s.cfg.mixed_layer.wq@ - wqe_m(s), s.h@), s.cfg.mixed_layer.advq@)
}

/// Mantissa of the jump evolution `dqtend = gammaq * we - qtend`,
/// plus a free-troposphere term that is currently always zero.
pub open spec fn dqtend_m(s: CLASS) -> int {
    fmul(s.cfg.mixed_layer.gammaq@, we_m(s)) - qtend_m(s)
}

pub open spec fn dqtend_ok(s: CLASS) -> bool {
    &&& qtend_ok(s)
    &&& fmul_ok(s.cfg.mixed_layer.gammaq@, we_m(s))
    &&& fsub_ok(fmul(s.cfg.mixed_layer.gammaq@, we_m(s)), qtend_m(s))
}

/// Whether one whole Euler step from `s` is exactly computable: every
/// tendency, every product with `dt` and every state sum stays in range,
/// and no divisor is zero.
pub open spec fn step_ok(s: CLASS) -> bool {
    let dt = s.cfg.time_control.dt@;
    &&& htend_ok(s)
    &&& fmul_ok(dt, htend_m(s))
    &&& fadd_ok(s.h@, fmul(dt, htend_m(s)))
    &&& thetatend_ok(s)
    &&& fmul_ok(dt, thetatend_m(s))
    &&& fadd_ok(s.theta@, fmul(dt, thetatend_m(s)))
    &&& dthetatend_ok(s)
    &&& fmul_ok(dt, dthetatend_m(s))
    &&& fadd_ok(s.dtheta@, fmul(dt, dthetatend_m(s)))
    &&& qtend_ok(s)
    &&& fmul_ok(dt, qtend_m(s))
    &&& fadd_ok(s.q@, fmul(dt, qtend_m(s)))
    &&& dqtend_ok(s)
    &&& fmul_ok(dt, dqtend_m(s))
    &&& fadd_ok(s.dq@, fmul(dt, dqtend_m(s)))
    &&& fadd_ok(s.t@, dt)
}

/// How one successful Euler step relates the pre-step state to the
/// post-step state: every field moves by `dt` times its tendency at the
/// pre-step state, the clock moves by `dt`, and the configuration is kept.
pub open spec fn stepped_from(pre: CLASS, post: CLASS) -> bool {
    let dt = pre.cfg.time_control.dt@;
    &&& post.h@ == pre.h@ + fmul(dt, htend_m(pre))
    &&& post.theta@ == pre.theta@ + fmul(dt, thetatend_m(pre))
    &&& post.dtheta@ == pre.dtheta@ + fmul(dt, dthetatend_m(pre))
    &&& post.q@ == pre.q@ + fmul(dt, qtend_m(pre))
    &&& post.dq@ == pre.dq@ + fmul(dt, dqtend_m(pre))
    &&& post.t@ == pre.t@ + dt
    &&& post.cfg == pre.cfg
    &&& post.steps@ == pre.steps@ + 1
}

impl CLASS {
    /// The elapsed time is exactly the number of completed steps times `dt`.
    pub open spec fn time_consistent(self) -> bool {
        self.steps@ >= 0 && self.t@ == self.steps@ * self.cfg.time_control.dt@
    }

    /// A fresh model: the state is the configured initial state, the clock
    /// is at zero, and no step has been taken. No validation is performed.
    pub fn new(cfg: Config) -> (r: CLASS)
        ensures
            r.h == cfg.initial_state.h_0,
            r.theta == cfg.initial_state.theta_0,
            r.dtheta == cfg.initial_state.dtheta_0,
            r.q == cfg.initial_state.q_0,
            r.dq == cfg.initial_state.dq_0,
            r.t@ == 0,
            r.cfg == cfg,
            r.steps@ == 0,
            r.time_consistent(),
    {
        let r = CLASS {
            h: cfg.initial_state.h_0,
            theta: cfg.initial_state.theta_0,
            dtheta: cfg.initial_state.dtheta_0,
            q: cfg.initial_state.q_0,
            dq: cfg.initial_state.dq_0,
            t: Fp::zero(),
            cfg,
            steps: Ghost(0),
        };
        proof {
            assert(0int * cfg.time_control.dt@ == 0) by (nonlinear_arith);
        }
        r
    }

    /// Virtual heat flux `wthetav = wtheta + 0.61 * theta * wq`.
    pub fn wthetav(&self) -> (r: Option<Fp>)
        ensures
            r is Some <==> wthetav_ok(*self),
            r matches Some(v) ==> v@ == wthetav_m(*self),
    {
        let p = Fp { m: VIRT_COEFF }.mul(self.theta)?.mul(self.cfg.mixed_layer.wq)?;
        self.cfg.mixed_layer.wtheta.add(p)
    }

    /// Entrainment virtual heat flux `wthetave = -beta * wthetav`.
    pub fn wthetave(&self) -> (r: Option<Fp>)
        ensures
            r is Some <==> wthetave_ok(*self),
            r matches Some(v) ==> v@ == wthetave_m(*self),
    {
        let wthetav = self.wthetav()?;
        self.cfg.mixed_layer.beta.neg()?.mul(wthetav)
    }

    /// Virtual potential temperature jump across the layer top.
    pub fn dthetav(&self) -> (r: Option<Fp>)
        ensures
            r is Some <==> dthetav_ok(*self),
            r matches Some(v) ==> v@ == dthetav_m(*self),
    {
        let one = Fp { m: SCALE };
        let above = self.theta.add(self.dtheta)?.mul(
            one.add(Fp { m: VIRT_COEFF }.mul(self.q.add(self.dq)?)?)?,
        )?;
        let below = self.theta.mul(one.add(Fp { m: VIRT_COEFF }.mul(self.q)?)?)?;
        above.sub(below)
    }

    /// Entrainment velocity `we = max(0, -wthetave / dthetav)`: the rate the
    /// boundary layer grows by entraining free-atmosphere air, never negative.
    pub fn we(&self) -> (r: Option<Fp>)
        ensures
            r is Some <==> we_ok(*self),
            r matches Some(v) ==> v@ == we_m(*self),
            r matches Some(v) ==> v@ >= 0,
    {
        let raw = self.wthetave()?.neg()?.div(self.dthetav()?)?;
        Some(raw.max_zero())
    }

    /// Subsidence velocity `ws = -div_u * h`.
    pub fn ws(&self) -> (r: Option<Fp>)
        ensures
            r is Some <==> ws_ok(*self),
            r matches Some(v) ==> v@ == ws_m(*self),
    {
        self.cfg.mixed_layer.div_u.neg()?.mul(self.h)
    }

    /// Depth tendency `htend = we + ws`.
    pub fn htend(&self) -> (r: Option<Fp>)
        ensures
            r is Some <==> htend_ok(*self),
            r matches Some(v) ==> v@ == htend_m(*self),
    {
        self.we()?.add(self.ws()?)
    }

    /// Entrainment heat flux `wthetae = -we * dtheta`.
    pub fn wthetae(&self) -> (r: Option<Fp>)
        ensures
            r is Some <==> wthetae_ok(*self),
            r matches Some(v) ==> v@ == wthetae_m(*self),
    {
        self.we()?.neg()?.mul(self.dtheta)
    }

    /// Entrainment moisture flux `wqe = -we * dq`.
    pub fn wqe(&self) -> (r: Option<Fp>)
        ensures
            r is Some <==> wqe_ok(*self),
            r matches Some(v) ==> v@ == wqe_m(*self),
    {
        self.we()?.neg()?.mul(self.dq)
    }

    /// Heat budget `thetatend = (wtheta - wthetae) / h + advtheta`.
    pub fn thetatend(&self) -> (r: Option<Fp>)
        ensures
            r is Some <==> thetatend_ok(*self),
            r matches Some(v) ==> v@ == thetatend_m(*self),
    {
        let flux = self.cfg.mixed_layer.wtheta.sub(self.wthetae()?)?;
        flux.div(self.h)?.add(self.cfg.mixed_layer.advtheta)
    }

    /// Jump evolution `dthetatend = gammatheta * we - thetatend + w_th_ft`.
    pub fn dthetatend(&self) -> (r: Option<Fp>)
        ensures
            r is Some <==> dthetatend_ok(*self),
            r matches Some(v) ==> v@ == dthetatend_m(*self),
    {
        // Reserved free-troposphere coupling, currently always zero.
        let w_th_ft = Fp::zero();
        let grown = self.cfg.mixed_layer.gammatheta.mul(self.we()?)?;
        grown.sub(self.thetatend()?)?.add(w_th_ft)
    }

    /// Moisture budget `qtend = (wq - wqe) / h + advq`.
    pub fn qtend(&self) -> (r: Option<Fp>)
        ensures
            r is Some <==> qtend_ok(*self),
            r matches Some(v) ==> v@ == qtend_m(*self),
    {
        let flux = self.cfg.mixed_layer.wq.sub(self.wqe()?)?;
        flux.div(self.h)?.add(self.cfg.mixed_layer.advq)
    }

    /// Jump evolution `dqtend = gammaq * we - qtend + w_q_ft`.
    pub fn dqtend(&self) -> (r: Option<Fp>)
        ensures
            r is Some <==> dqtend_ok(*self),
            r matches Some(v) ==> v@ == dqtend_m(*self),
    {
        // Reserved free-troposphere coupling, currently always zero.
        let w_q_ft = Fp::zero();
        let grown = self.cfg.mixed_layer.gammaq.mul(self.we()?)?;
        grown.sub(self.qtend()?)?.add(w_q_ft)
    }

    /// One explicit Euler step of size `dt`. Every tendency is evaluated
    /// against the pre-step state, and the five state variables and the
    /// clock change together, or not at all: where the exact arithmetic
    /// cannot produce the step, the state is left untouched and
    /// [`StepError::Degenerate`] is returned.
    pub fn update(&mut self) -> (r: Result<(), StepError>)
        ensures
            r is Ok <==> step_ok(*old(self)),
            r is Err ==> *final(self) == *old(self) && r == Err::<(), StepError>(
                StepError::Degenerate,
            ),
            r is Ok ==> stepped_from(*old(self), *final(self)),
            old(self).time_consistent() ==> final(self).time_consistent(),
    {
        let dt = self.cfg.time_control.dt;
        // All tendencies are taken from the pre-step state; the fields are
        // only assigned once every new value exists.
        let htend = match self.htend() {
            Some(v) => v,
            None => { return Err(StepError::Degenerate) },
        };
        let thetatend = match self.thetatend() {
            Some(v) => v,
            None => { return Err(StepError::Degenerate) },
        };
        let dthetatend = match self.dthetatend() {
            Some(v) => v,
            None => { return Err(StepError::Degenerate) },
        };
        let qtend = match self.qtend() {
            Some(v) => v,
            None => { return Err(StepError::Degenerate) },
        };
        let dqtend = match self.dqtend() {
            Some(v) => v,
            None => { return Err(StepError::Degenerate) },
        };
        let h_next = match dt.mul(htend) {
            Some(d) => match self.h.add(d) {
                Some(v) => v,
                None => { return Err(StepError::Degenerate) },
            },
            None => { return Err(StepError::Degenerate) },
        };
        let theta_next = match dt.mul(thetatend) {
            Some(d) => match self.theta.add(d) {
                Some(v) => v,
                None => { return Err(StepError::Degenerate) },
            },
            None => { return Err(StepError::Degenerate) },
        };
        let dtheta_next = match dt.mul(dthetatend) {
            Some(d) => match self.dtheta.add(d) {
                Some(v) => v,
                None => { return Err(StepError::Degenerate) },
            },
            None => { return Err(StepError::Degenerate) },
        };
        let q_next = match dt.mul(qtend) {
            Some(d) => match self.q.add(d) {
                Some(v) => v,
                None => { return Err(StepError::Degenerate) },
            },
            None => { return Err(StepError::Degenerate) },
        };
        let dq_next = match dt.mul(dqtend) {
            Some(d) => match self.dq.add(d) {
                Some(v) => v,
                None => { return Err(StepError::Degenerate) },
            },
            None => { return Err(StepError::Degenerate) },
        };
        let t_next = match self.t.add(dt) {
            Some(v) => v,
            None => { return Err(StepError::Degenerate) },
        };
        proof {
            let k = old(self).steps@;
            let d = old(self).cfg.time_control.dt@;
            assert((k + 1) * d == k * d + d) by (nonlinear_arith);
        }
        self.h = h_next;
        self.theta = theta_next;
        self.dtheta = dtheta_next;
        self.q = q_next;
        self.dq = dq_next;
        self.t = t_next;
        self.steps = Ghost(self.steps@ + 1);
        Ok(())
    }
}

/// Law: the entrainment velocity is never negative. Even where the raw
/// ratio `-wthetave / dthetav` is negative, the clamp keeps it at zero.
pub proof fn lemma_entrainment_nonnegative(s: CLASS)
    ensures
        we_ok(s) ==> we_m(s) >= 0,
{
}

/// Law: the elapsed time of a consistent model equals the number of
/// completed steps times the configured step size. Together with
/// `CLASS::new` (zero steps, zero clock) and `CLASS::update` (which adds
/// one step and `dt` together), this says that after any sequence of
/// successful steps the clock reads exactly that many multiples of `dt`.
pub proof fn lemma_time_is_step_count_times_dt(m: CLASS)
    requires
        m.time_consistent(),
    ensures
        m.t@ == m.steps@ * m.cfg.time_control.dt@,
{
}

/// Law: with both jumps at zero the virtual potential temperature jump is
/// exactly zero, so the entrainment ratio divides by zero and the step is
/// degenerate: `update` then returns an error and leaves the whole state,
/// in particular `h`, unchanged. This is the zero-flux steady state read
/// through exact arithmetic, where the divide-by-zero is reported rather
/// than silently propagated.
pub proof fn lemma_zero_jump_degenerate(s: CLASS)
    requires
        s.dtheta@ == 0,
        s.dq@ == 0,
    ensures
        dthetav_m(s) == 0,
        !we_ok(s),
        !step_ok(s),
{
    assert(s.theta@ + s.dtheta@ == s.theta@);
    assert(s.q@ + s.dq@ == s.q@);
}

} // verus!
