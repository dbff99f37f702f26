//! A Basic Model Interface style adapter around the model core.
//!
//! [`BmiClass`] owns an optional model and an optional configuration, both
//! empty until the first `initialize` call. Every other operation on an
//! uninitialized adapter returns [`BmiError::NotInitialized`] instead of
//! aborting; `get_value` returns [`BmiError::UnknownVariable`] for a name
//! outside the fixed set.

use crate::fixed::Fp;
use crate::model::{step_ok, stepped_from, Config, StepError, CLASS};
use crate::utils::{str_eq, GenericOption};
use vstd::prelude::*;

verus! {

/// How an adapter call can fail.
#[derive(Clone, Copy, PartialEq, Eq, Structural, Debug)]
pub enum BmiError {
    /// An operation other than `initialize` was called before the first
    /// `initialize`.
    NotInitialized,
    /// `get_value` was called with a name outside the fixed variable set.
    UnknownVariable,
    /// The model step could not be computed exactly.
    DegenerateStep,
}

/// The state variable, if any, that a name denotes, and its current value:
/// the fixed set is `t`, `h`, `theta`, `dtheta`, `q` and `dq`,
/// case-sensitively.
pub open spec fn var_lookup(m: CLASS, name: Seq<char>) -> Option<Fp> {
    if name == "t"@ {
        Some(m.t)
    } else if name == "h"@ {
        Some(m.h)
    } else if name == "theta"@ {
        Some(m.theta)
    } else if name == "dtheta"@ {
        Some(m.dtheta)
    } else if name == "q"@ {
        Some(m.q)
    } else if name == "dq"@ {
        Some(m.dq)
    } else {
        None
    }
}

/// The BMI style host adapter: an optional model core and its configuration,
/// created only by an explicit `initialize` call.
pub struct BmiClass {
    pub model: GenericOption<CLASS>,
    pub config: GenericOption<Config>,
}

impl BmiClass {
    /// Whether `initialize` was called at least once.
    pub open spec fn initialized(self) -> bool {
        self.model.is_set()
    }

    /// The adapter is consistent: model and configuration are set together,
    /// the stored model carries the stored configuration, and its clock
    /// agrees with its step count.
    pub open spec fn wf(self) -> bool {
        &&& self.model.is_set() <==> self.config.is_set()
        &&& self.model.is_set() ==> self.model.val().cfg == self.config.val()
            && self.model.val().time_consistent()
    }

    /// A fresh, uninitialized adapter.
    pub fn new() -> (r: BmiClass)
        ensures
            !r.initialized(),
            r.wf(),
    {
        BmiClass {
            model: GenericOption::new("Model not available - call initialize first".to_owned()),
            config: GenericOption::new("Config not available - call initialize first".to_owned()),
        }
    }

    /// Builds and stores a fresh model from the configuration, discarding
    /// any earlier model and configuration: a second call starts a new
    /// simulation from the new initial state, with the clock back at zero.
    pub fn initialize(&mut self, config: Config)
        ensures
            final(self).initialized(),
            final(self).wf(),
            final(self).model.val().h == config.initial_state.h_0,
            final(self).model.val().theta == config.initial_state.theta_0,
            final(self).model.val().dtheta == config.initial_state.dtheta_0,
            final(self).model.val().q == config.initial_state.q_0,
            final(self).model.val().dq == config.initial_state.dq_0,
            final(self).model.val().t@ == 0,
            final(self).model.val().steps@ == 0,
            final(self).model.val().cfg == config,
            final(self).config.val() == config,
    {
        self.model.set(CLASS::new(config));
        self.config.set(config);
    }

    /// One model step. Fails with `NotInitialized` before the first
    /// `initialize`, and with `DegenerateStep` where the exact arithmetic
    /// cannot produce the step; in both cases nothing changes.
    pub fn update(&mut self) -> (r: Result<(), BmiError>)
        ensures
            old(self).wf() ==> final(self).wf(),
            !old(self).initialized() ==> r == Err::<(), BmiError>(BmiError::NotInitialized)
                && *final(self) == *old(self),
            old(self).initialized() ==> {
                &&& (r is Ok <==> step_ok(old(self).model.val()))
                &&& r is Err ==> *final(self) == *old(self) && r == Err::<(), BmiError>(
                    BmiError::DegenerateStep,
                )
                &&& r is Ok ==> final(self).model.is_set() && stepped_from(
                    old(self).model.val(),
                    final(self).model.val(),
                ) && final(self).config == old(self).config
            },
    {
        if !self.model.has_value() {
            return Err(BmiError::NotInitialized);
        }
        let model = self.model.value_or_panic_mut();
        match model.update() {
            Ok(()) => Ok(()),
            Err(StepError::Degenerate) => Err(BmiError::DegenerateStep),
        }
    }

    /// A fixed descriptive component name; no state dependency.
    pub fn get_component_name(&self) -> (r: String)
        ensures
            r@ == "Chemistry Land-surface Atmosphere Soil Slab model"@,
    {
        "Chemistry Land-surface Atmosphere Soil Slab model".to_owned()
    }

    /// The elapsed simulation time of the stored model.
    pub fn get_current_time(&self) -> (r: Result<Fp, BmiError>)
        ensures
            self.initialized() ==> r == Ok::<Fp, BmiError>(self.model.val().t),
            !self.initialized() ==> r == Err::<Fp, BmiError>(BmiError::NotInitialized),
    {
        if self.model.has_value() {
            Ok(self.model.value_or_panic().t)
        } else {
            Err(BmiError::NotInitialized)
        }
    }

    /// The configured total runtime.
    pub fn get_end_time(&self) -> (r: Result<Fp, BmiError>)
        ensures
            self.config.is_set() ==> r == Ok::<Fp, BmiError>(
                self.config.val().time_control.runtime,
            ),
            !self.config.is_set() ==> r == Err::<Fp, BmiError>(BmiError::NotInitialized),
    {
        if self.config.has_value() {
            Ok(self.config.value_or_panic().time_control.runtime)
        } else {
            Err(BmiError::NotInitialized)
        }
    }

    /// The configured step size.
    pub fn get_time_step(&self) -> (r: Result<Fp, BmiError>)
        ensures
            self.config.is_set() ==> r == Ok::<Fp, BmiError>(self.config.val().time_control.dt),
            !self.config.is_set() ==> r == Err::<Fp, BmiError>(BmiError::NotInitialized),
    {
        if self.config.has_value() {
            Ok(self.config.value_or_panic().time_control.dt)
        } else {
            Err(BmiError::NotInitialized)
        }
    }

    /// The current value of the named state variable, among `t`, `h`,
    /// `theta`, `dtheta`, `q` and `dq` (case-sensitive). Fails with
    /// `NotInitialized` before the first `initialize` and with
    /// `UnknownVariable` for any other name.
    pub fn get_value(&self, variable: &str) -> (r: Result<Fp, BmiError>)
        ensures
            !self.initialized() ==> r == Err::<Fp, BmiError>(BmiError::NotInitialized),
            self.initialized() ==> r == (match var_lookup(self.model.val(), variable@) {
                Some(v) => Ok::<Fp, BmiError>(v),
                None => Err::<Fp, BmiError>(BmiError::UnknownVariable),
            }),
    {
        if !self.model.has_value() {
            return Err(BmiError::NotInitialized);
        }
        let model = self.model.value_or_panic();
        if str_eq(variable, "t") {
            Ok(model.t)
        } else if str_eq(variable, "h") {
            Ok(model.h)
        } else if str_eq(variable, "theta") {
            Ok(model.theta)
        } else if str_eq(variable, "dtheta") {
            Ok(model.dtheta)
        } else if str_eq(variable, "q") {
            Ok(model.q)
        } else if str_eq(variable, "dq") {
            Ok(model.dq)
        } else {
            Err(BmiError::UnknownVariable)
        }
    }
}

} // verus!
