//! A brightness controller bound to one display and to the two resolved
//! entry points of the platform's brightness interface.

use vstd::prelude::*;
use crate::display::DisplayId;
use crate::level::{in_unit_interval, is_unit_level};

verus! {

/// Address of a resolved entry point, or of an opened library.
pub type Address = usize;

/// Why a brightness operation failed.
#[derive(Debug, Clone, Copy, PartialEq, Eq, Structural)]
pub enum BrightnessError {
    /// The level asked for lies outside `[0.0, 1.0]`.
    OutOfRange,
    /// The platform's entry point returned this non-zero status.
    PlatformReturnedError(i32),
}

/// A call of the getter entry point that the caller is to make: the entry
/// point, and the display to pass it.
#[derive(Debug, Clone, Copy, PartialEq, Eq, Structural)]
pub struct GetterCall {
    pub entry: Address,
    pub display: DisplayId,
}

/// A call of the setter entry point that the caller is to make: the entry
/// point, the display and the level's bits to pass it.
#[derive(Debug, Clone, Copy, PartialEq, Eq, Structural)]
pub struct SetterCall {
    pub entry: Address,
    pub display: DisplayId,
    pub level: u32,
}

/// What a getter or setter status means: zero is success.
pub open spec fn status_result(status: i32) -> Result<(), BrightnessError> {
    if status == 0 {
        Ok(())
    } else {
        Err(BrightnessError::PlatformReturnedError(status))
    }
}

/// The bound state: one display, the library that was opened for it (none
/// when the entry points were found among the libraries already mapped into
/// the process), and the two entry points.
#[derive(Debug, Clone, Copy, PartialEq, Eq, Structural)]
pub struct BrightnessController {
    pub display_id: DisplayId,
    pub handle: Option<Address>,
    pub getter: Address,
    pub setter: Address,
}

impl BrightnessController {
    /// Binds a display to a library handle and two entry points.
    pub fn bind(display_id: DisplayId, handle: Option<Address>, getter: Address, setter: Address) -> (r: Self)
        ensures
            r == (BrightnessController { display_id, handle, getter, setter }),
    {
        BrightnessController { display_id, handle, getter, setter }
    }

    /// The call that reads the level: the getter, on the bound display.
    pub fn get(&self) -> (r: GetterCall)
        ensures
            r == (GetterCall { entry: self.getter, display: self.display_id }),
    {
        GetterCall { entry: self.getter, display: self.display_id }
    }

    /// What a getter call that returned `status` and wrote the level `written`
    /// yields: the level, unchanged and not checked again, on a zero status;
    /// the status as an error otherwise.
    pub fn get_outcome(status: i32, written: u32) -> (r: Result<u32, BrightnessError>)
        ensures
            status == 0 ==> r == Ok::<u32, BrightnessError>(written),
            status != 0 ==> r == Err::<u32, BrightnessError>(
                BrightnessError::PlatformReturnedError(status),
            ),
    {
        if status == 0 {
            Ok(written)
        } else {
            Err(BrightnessError::PlatformReturnedError(status))
        }
    }

    /// The call that sets the level `level`: refused, with no call to make,
    /// unless `0.0 <= level <= 1.0`; otherwise exactly one call of the setter
    /// on the bound display with the level unchanged.
    pub fn set(&self, level: u32) -> (r: Result<SetterCall, BrightnessError>)
        ensures
            !in_unit_interval(level) ==> r == Err::<SetterCall, BrightnessError>(
                BrightnessError::OutOfRange,
            ),
            in_unit_interval(level) ==> r == Ok::<SetterCall, BrightnessError>(
                SetterCall { entry: self.setter, display: self.display_id, level },
            ),
    {
        if !is_unit_level(level) {
            return Err(BrightnessError::OutOfRange);
        }
        Ok(SetterCall { entry: self.setter, display: self.display_id, level })
    }

    /// What a setter call that returned `status` yields.
    pub fn set_outcome(status: i32) -> (r: Result<(), BrightnessError>)
        ensures
            r == status_result(status),
    {
        if status == 0 {
            Ok(())
        } else {
            Err(BrightnessError::PlatformReturnedError(status))
        }
    }

    /// Ends the controller's life and hands back the library handle that is
    /// now to be released, if one was opened. Taking the controller by value
    /// makes this happen at most once.
    pub fn close(self) -> (r: Option<Address>)
        ensures
            r == self.handle,
    {
        self.handle
    }
}

} // verus!
