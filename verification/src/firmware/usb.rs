//! Host link transport selection.

use vstd::prelude::*;

verus! {

/// Transport class used by the host link.
#[derive(Clone, Copy, Debug, PartialEq, Eq, Structural)]
pub enum TransportClass {
    /// USB CDC serial transport.
    UsbCdc,
    /// UART fallback for bring-up and diagnostics.
    UartFallback,
}

/// USB transport state for the embedded target.
#[derive(Clone, Copy, Debug, PartialEq, Eq, Structural)]
pub struct UsbTransport {
    /// Active transport class.
    pub class: TransportClass,
}

impl UsbTransport {
    /// Construct the default USB transport.
    pub fn new() -> (transport: Self)
        ensures
            transport.class == TransportClass::UsbCdc,
    {
        UsbTransport { class: TransportClass::UsbCdc }
    }
}

impl Default for UsbTransport {
    fn default() -> (transport: Self)
        ensures
            transport.class == TransportClass::UsbCdc,
    {
        Self::new()
    }
}

} // verus!
