//! Board profile definitions for the currently supported embedded hardware.

use vstd::prelude::*;

verus! {

/// Static description of a supported embedded board.
#[derive(Clone, Copy, Debug, PartialEq, Eq)]
pub struct BoardProfile {
    /// Human-readable board name.
    pub name: &'static str,
    /// Microcontroller on the board.
    pub mcu: &'static str,
    /// External flash capacity in bytes.
    pub flash_bytes: usize,
    /// External PSRAM capacity in bytes.
    pub psram_bytes: usize,
    /// Whether the board exposes USB-C.
    pub has_usb_c: bool,
    /// Whether the board includes a Qw/ST connector.
    pub has_qwst: bool,
    /// Whether the board includes LiPo charging support.
    pub has_lipo_charger: bool,
}

/// External flash on the Pico LiPo 2: 16 MiB.
pub const PICO_LIPO_2_FLASH_BYTES: usize = 16_777_216;
/// External PSRAM on the Pico LiPo 2: 8 MiB.
pub const PICO_LIPO_2_PSRAM_BYTES: usize = 8_388_608;

/// The profile of the Pimoroni Pico LiPo 2 with RP2350B.
pub open spec fn spec_pimoroni_pico_lipo_2() -> BoardProfile {
    BoardProfile {
        name: "Pimoroni Pico LiPo 2",
        mcu: "RP2350B",
        flash_bytes: PICO_LIPO_2_FLASH_BYTES,
        psram_bytes: PICO_LIPO_2_PSRAM_BYTES,
        has_usb_c: true,
        has_qwst: true,
        has_lipo_charger: true,
    }
}

/// Current board target: Pimoroni Pico LiPo 2 with RP2350B.
pub fn active_board_profile() -> (board: BoardProfile)
    ensures
        board == spec_pimoroni_pico_lipo_2(),
{
    BoardProfile {
        name: "Pimoroni Pico LiPo 2",
        mcu: "RP2350B",
        flash_bytes: PICO_LIPO_2_FLASH_BYTES,
        psram_bytes: PICO_LIPO_2_PSRAM_BYTES,
        has_usb_c: true,
        has_qwst: true,
        has_lipo_charger: true,
    }
}

} // verus!
