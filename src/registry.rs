//! The registry: the single owner of every hardware handle and of the
//! sensor's calibration.
use vstd::prelude::*;
use crate::bmp180::Coeffs;

verus! {

/// Owner of the board's handles: a delay timer `D`, the indicator LED `L`,
/// the range finder's trigger `T` and echo `E` lines, and the sensor bus `B`,
/// together with the calibration read from the sensor. A slot is either empty
/// or holds exactly one handle.
pub struct Registry<D, L, T, E, B> {
    pub delay: Option<D>,
    pub indicator: Option<L>,
    pub trigger: Option<T>,
    pub echo: Option<E>,
    pub bus: Option<B>,
    pub coeffs: Option<Coeffs>,
}

/// Why setting up the registry was refused.
#[derive(Clone, Copy, Debug, PartialEq, Eq, Structural)]
pub enum SetupError {
    /// Handles were already installed: the hardware is owned already.
    AlreadyInstalled,
    /// A calibration was already stored.
    AlreadyCalibrated,
}

impl<D, L, T, E, B> Registry<D, L, T, E, B> {
    /// No slot holds anything.
    pub open spec fn is_empty(&self) -> bool {
        &&& self.delay.is_none()
        &&& self.indicator.is_none()
        &&& self.trigger.is_none()
        &&& self.echo.is_none()
        &&& self.bus.is_none()
        &&& self.coeffs.is_none()
    }

    /// Some handle slot holds a handle.
    pub open spec fn any_handle(&self) -> bool {
        self.delay.is_some() || self.indicator.is_some() || self.trigger.is_some()
            || self.echo.is_some() || self.bus.is_some()
    }

    /// Every handle slot holds a handle.
    pub open spec fn all_handles(&self) -> bool {
        &&& self.delay.is_some()
        &&& self.indicator.is_some()
        &&& self.trigger.is_some()
        &&& self.echo.is_some()
        &&& self.bus.is_some()
    }

    /// Every slot, the calibration included, is populated.
    pub open spec fn is_ready_spec(&self) -> bool {
        self.all_handles() && self.coeffs.is_some()
    }

    /// This registry with the handles installed in their slots.
    pub open spec fn with_handles(self, delay: D, indicator: L, trigger: T, echo: E, bus: B) -> Self {
        Registry {
            delay: Some(delay),
            indicator: Some(indicator),
            trigger: Some(trigger),
            echo: Some(echo),
            bus: Some(bus),
            coeffs: self.coeffs,
        }
    }

    /// This registry with the calibration stored.
    pub open spec fn with_coeffs(self, coeffs: Coeffs) -> Self {
        Registry { coeffs: Some(coeffs), ..self }
    }

    /// A registry with every slot empty, as at power-on.
    pub fn new() -> (r: Self)
        ensures
            r.is_empty(),
    {
        Registry { delay: None, indicator: None, trigger: None, echo: None, bus: None, coeffs: None }
    }

    /// Takes ownership of the handles. Refused, with the registry unchanged,
    /// when any handle was installed before: the hardware cannot be owned twice.
    pub fn install(&mut self, delay: D, indicator: L, trigger: T, echo: E, bus: B) -> (r: Result<(), SetupError>)
        ensures
            r is Err <==> old(self).any_handle(),
            r is Err ==> r == Err::<(), SetupError>(SetupError::AlreadyInstalled) && *final(self) == *old(self),
            r is Ok ==> *final(self) == old(self).with_handles(delay, indicator, trigger, echo, bus),
    {
        if self.delay.is_some() || self.indicator.is_some() || self.trigger.is_some()
            || self.echo.is_some() || self.bus.is_some() {
            return Err(SetupError::AlreadyInstalled);
        }
        self.delay = Some(delay);
        self.indicator = Some(indicator);
        self.trigger = Some(trigger);
        self.echo = Some(echo);
        self.bus = Some(bus);
        Ok(())
    }

    /// Stores the calibration once. Refused, with the registry unchanged,
    /// when one was stored before.
    pub fn store_coeffs(&mut self, coeffs: Coeffs) -> (r: Result<(), SetupError>)
        ensures
            r is Err <==> old(self).coeffs.is_some(),
            r is Err ==> r == Err::<(), SetupError>(SetupError::AlreadyCalibrated) && *final(self) == *old(self),
            r is Ok ==> *final(self) == old(self).with_coeffs(coeffs),
    {
        if self.coeffs.is_some() {
            return Err(SetupError::AlreadyCalibrated);
        }
        self.coeffs = Some(coeffs);
        Ok(())
    }

    /// Whether every slot, the calibration included, is populated.
    pub fn is_ready(&self) -> (r: bool)
        ensures
            r == self.is_ready_spec(),
    {
        self.delay.is_some() && self.indicator.is_some() && self.trigger.is_some()
            && self.echo.is_some() && self.bus.is_some() && self.coeffs.is_some()
    }
}

/// Setup populates every slot exactly once: on a fresh registry installing
/// the handles and storing a calibration are both accepted and leave every
/// slot populated, after which a second installation and a second
/// calibration are both refused.
pub proof fn setup_populates_once<D, L, T, E, B>(
    fresh: Registry<D, L, T, E, B>,
    delay: D,
    indicator: L,
    trigger: T,
    echo: E,
    bus: B,
    coeffs: Coeffs,
)
    requires
        fresh.is_empty(),
    ensures
        !fresh.any_handle(),
        fresh.with_handles(delay, indicator, trigger, echo, bus).coeffs.is_none(),
        fresh.with_handles(delay, indicator, trigger, echo, bus).with_coeffs(coeffs).is_ready_spec(),
        fresh.with_handles(delay, indicator, trigger, echo, bus).with_coeffs(coeffs).any_handle(),
        fresh.with_handles(delay, indicator, trigger, echo, bus).with_coeffs(coeffs).coeffs.is_some(),
{
}

/// Before setup nothing is ready: a fresh registry gives every request its
/// sentinel, and plans no hardware work for any of them.
pub proof fn fresh_registry_yields_sentinels<D, L, T, E, B>(fresh: Registry<D, L, T, E, B>)
    requires
        fresh.is_empty(),
    ensures
        !fresh.temperature_ready(),
        !fresh.distance_ready(),
        fresh.indicator.is_none(),
        fresh.bus.is_none(),
        !fresh.is_ready_spec(),
{
}

} // verus!
