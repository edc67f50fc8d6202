//! Board hooks around the firmware scaffold: the boot marker and the live
//! hardware bridge, with the no-op versions used where a board has neither.

use vstd::prelude::*;

use crate::firmware::control::ControlLoop;
use crate::firmware::scaffold::{spec_initial_scaffold, FirmwareScaffold};
use crate::units::{CoreError, Mode};

verus! {

/// A boot-stage marker, such as a status LED.
pub trait BootMarker {
    /// Mark a boot stage as begun.
    fn set_high(&mut self);

    /// Mark a boot stage as done.
    fn set_low(&mut self);
}

/// A boot marker for boards whose status LED is not a plain output.
#[derive(Clone, Copy, Debug, Default)]
pub struct NoopBootMarker;

impl BootMarker for NoopBootMarker {
    fn set_high(&mut self) {
    }

    fn set_low(&mut self) {
    }
}

/// The live hardware a board drives from the scaffold's state.
pub trait RuntimeHardware {
    /// Bring the hardware in line with the scaffold.
    fn sync_with_scaffold(&mut self, scaffold: &mut FirmwareScaffold) -> Result<(), ()>;

    /// Put the scaffold and the hardware into the fault state.
    fn enter_fault_state(&mut self, scaffold: &mut FirmwareScaffold, error: Option<CoreError>);
}

/// The hardware bridge of a board with no live peripherals: syncing always
/// succeeds and changes nothing; a fault only faults the scaffold.
#[derive(Clone, Copy, Debug, Default)]
pub struct NoopRuntimeHardware;

impl RuntimeHardware for NoopRuntimeHardware {
    fn sync_with_scaffold(&mut self, scaffold: &mut FirmwareScaffold) -> (result: Result<(), ()>)
        ensures
            result is Ok,
            *final(scaffold) == *old(scaffold),
    {
        Ok(())
    }

    fn enter_fault_state(&mut self, scaffold: &mut FirmwareScaffold, error: Option<CoreError>)
        ensures
            spec_initial_scaffold(FirmwareScaffold {
                control: ControlLoop { mode: Mode::Teleop, last_error: None, ..final(scaffold).control },
                ..*final(scaffold)
            }),
            final(scaffold).control.mode == Mode::Fault,
            final(scaffold).control.last_error == error,
    {
        scaffold.enter_fault_state(error);
    }
}

} // verus!
