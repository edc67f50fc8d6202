//! Deploy metadata for the two firmware images, consumed by host tooling.

use vstd::prelude::*;

verus! {

/// Cargo profile an artifact is built with by default.
#[derive(Clone, Copy, Debug, PartialEq, Eq, Structural)]
pub enum BuildProfile {
    Debug,
    Release,
}

/// How to build one firmware artifact.
#[derive(Clone, Copy, Debug, PartialEq, Eq)]
pub struct Artifact {
    pub manifest_path: &'static str,
    pub package_name: &'static str,
    pub bin_name: &'static str,
    pub cargo_features: &'static [&'static str],
    pub cargo_no_default_features: bool,
    pub cargo_target_dir: &'static str,
    pub target_triple: &'static str,
    pub default_profile: BuildProfile,
}

/// Debug probe selection.
#[derive(Clone, Copy, Debug, PartialEq, Eq)]
pub struct Probe {
    pub chip: &'static str,
}

/// UF2 image parameters.
#[derive(Clone, Copy, Debug, PartialEq, Eq)]
pub struct Uf2 {
    pub family_name: &'static str,
    pub family_id: u32,
    pub absolute_block_location: Option<u32>,
}

/// BOOTSEL mass-storage upload parameters.
#[derive(Clone, Copy, Debug, PartialEq, Eq)]
pub struct Bootsel {
    pub button_name: &'static str,
    pub volume_labels: &'static [&'static str],
    pub info_tokens: &'static [&'static str],
    pub manual_steps: &'static [&'static str],
}

/// Everything host tooling needs to build and flash one firmware image.
#[derive(Clone, Copy, Debug, PartialEq, Eq)]
pub struct FirmwareTarget {
    pub id: &'static str,
    pub board_name: &'static str,
    pub board_mcu: &'static str,
    pub artifact: Artifact,
    pub probe: Probe,
    pub uf2: Uf2,
    pub bootsel: Bootsel,
}

/// UF2 family identifier of the RP2350 ARM secure image.
pub const RP2350_UF2_FAMILY_ID: u32 = 0xE48B_FF59;
/// Absolute block location of the RP2350 UF2 image.
pub const RP2350_UF2_BLOCK_LOCATION: u32 = 0x10FF_FF00;

fn rp2350_uf2() -> (uf2: Uf2)
    ensures
        uf2.family_id == RP2350_UF2_FAMILY_ID,
        uf2.absolute_block_location == Some(RP2350_UF2_BLOCK_LOCATION),
{
    Uf2 {
        family_name: "RP2350_ARM_S",
        family_id: RP2350_UF2_FAMILY_ID,
        absolute_block_location: Some(RP2350_UF2_BLOCK_LOCATION),
    }
}

fn rp2350_bootsel() -> (bootsel: Bootsel)
    ensures
        bootsel.button_name == "BOOTSEL",
        bootsel.volume_labels@ == seq!["RP2350", "RPI-RP2"],
        bootsel.info_tokens@ == seq!["RP2350", "RPI-RP2", "Pico"],
        bootsel.manual_steps@ == seq![
            "Unplug the Pico LiPo 2 from USB-C.",
            "Hold the BOOTSEL button on the board.",
            "Reconnect USB-C while keeping BOOTSEL pressed.",
            "Release BOOTSEL after a mass-storage volume such as RP2350 or RPI-RP2 appears.",
            "Confirm the BOOTSEL device with picotool info or by listing /Volumes.",
        ],
{
    Bootsel {
        button_name: "BOOTSEL",
        volume_labels: &["RP2350", "RPI-RP2"],
        info_tokens: &["RP2350", "RPI-RP2", "Pico"],
        manual_steps: &[
            "Unplug the Pico LiPo 2 from USB-C.",
            "Hold the BOOTSEL button on the board.",
            "Reconnect USB-C while keeping BOOTSEL pressed.",
            "Release BOOTSEL after a mass-storage volume such as RP2350 or RPI-RP2 appears.",
            "Confirm the BOOTSEL device with picotool info or by listing /Volumes.",
        ],
    }
}

/// Deploy metadata for the Pico LiPo 2 motion controller image.
pub fn deploy_target_motion_controller() -> (target: FirmwareTarget)
    ensures
        target.id == "motion-controller",
        target.board_name == "Pimoroni Pico LiPo 2",
        target.board_mcu == "RP2350B",
        target.artifact.cargo_target_dir == "target/mortimmy-rp2350-motion-controller",
        target.artifact.cargo_no_default_features,
{
    FirmwareTarget {
        id: "motion-controller",
        board_name: "Pimoroni Pico LiPo 2",
        board_mcu: "RP2350B",
        artifact: Artifact {
            manifest_path: "firmware/rp2350/Cargo.toml",
            package_name: "mortimmy-rp2350",
            bin_name: "mortimmy-rp2350",
            cargo_features: &["board-motion-controller"],
            cargo_no_default_features: true,
            cargo_target_dir: "target/mortimmy-rp2350-motion-controller",
            target_triple: "thumbv8m.main-none-eabihf",
            default_profile: BuildProfile::Debug,
        },
        probe: Probe { chip: "RP235x" },
        uf2: rp2350_uf2(),
        bootsel: rp2350_bootsel(),
    }
}

/// Deploy metadata for the Pico 2 W audio controller image.
pub fn deploy_target_audio_controller() -> (target: FirmwareTarget)
    ensures
        target.id == "audio-controller",
        target.board_name == "Pico 2 W + Pico Audio Pack",
        target.board_mcu == "RP2350",
        target.artifact.cargo_target_dir == "target/mortimmy-rp2350-audio-controller",
        target.artifact.cargo_no_default_features,
{
    FirmwareTarget {
        id: "audio-controller",
        board_name: "Pico 2 W + Pico Audio Pack",
        board_mcu: "RP2350",
        artifact: Artifact {
            manifest_path: "firmware/rp2350/Cargo.toml",
            package_name: "mortimmy-rp2350",
            bin_name: "mortimmy-rp2350",
            cargo_features: &["board-audio-controller"],
            cargo_no_default_features: true,
            cargo_target_dir: "target/mortimmy-rp2350-audio-controller",
            target_triple: "thumbv8m.main-none-eabihf",
            default_profile: BuildProfile::Debug,
        },
        probe: Probe { chip: "RP235x" },
        uf2: rp2350_uf2(),
        bootsel: rp2350_bootsel(),
    }
}

} // verus!
