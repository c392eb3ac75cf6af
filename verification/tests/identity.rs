use wlink::chip::RiscvChip;
use wlink::error::{DebugProbeError, ProbeCreationError, WchLinkError};
use wlink::variant::WchLinkVariant;

const CHIPS: [(RiscvChip, u8, bool); 13] = [
    (RiscvChip::CH32V103, 0x01, true),
    (RiscvChip::CH57X, 0x02, false),
    (RiscvChip::CH56X, 0x03, false),
    (RiscvChip::CH32V20X, 0x05, true),
    (RiscvChip::CH32V30X, 0x06, true),
    (RiscvChip::CH58X, 0x07, false),
    (RiscvChip::CH32V003, 0x09, true),
    (RiscvChip::CH8571, 0x0A, false),
    (RiscvChip::CH59X, 0x0B, false),
    (RiscvChip::CH643, 0x0C, true),
    (RiscvChip::CH32X035, 0x0D, true),
    (RiscvChip::CH32L103, 0x0E, true),
    (RiscvChip::CH641, 0x49, true),
];

#[test]
fn variants_have_numbers_and_names() {
    let variants = [
        (WchLinkVariant::Ch549, 1, "WCH-Link-CH549"),
        (WchLinkVariant::ECh32v305, 2, "WCH-LinkE-CH32V305"),
        (WchLinkVariant::SCh32v203, 3, "WCH-LinkS-CH32V203"),
        (WchLinkVariant::WCh32v208, 5, "WCH-LinkW-CH32V208"),
    ];
    for (variant, value, name) in variants {
        assert_eq!(variant.to_u8(), value);
        assert_eq!(WchLinkVariant::try_from_u8(value), Ok(variant));
        assert_eq!(variant.to_string(), name);
    }
}

#[test]
fn a_second_number_stands_for_the_link_e() {
    assert_eq!(WchLinkVariant::try_from_u8(0x12), Ok(WchLinkVariant::ECh32v305));
}

#[test]
fn other_numbers_are_no_variant() {
    for value in 0..=255u8 {
        if ![1, 2, 3, 5, 0x12].contains(&value) {
            assert_eq!(WchLinkVariant::try_from_u8(value), Err(WchLinkError::UnknownDevice));
        }
    }
}

#[test]
fn chips_have_numbers() {
    for (chip, value, _) in CHIPS {
        assert_eq!(chip.to_u8(), value);
        assert_eq!(RiscvChip::try_from_u8(value), Some(chip));
    }
}

#[test]
fn other_numbers_are_no_chip() {
    for value in 0..=255u8 {
        let known = CHIPS.iter().any(|(_, number, _)| *number == value);
        assert_eq!(RiscvChip::try_from_u8(value).is_some(), known);
    }
}

#[test]
fn chips_support_flash_protection() {
    for (chip, _, supported) in CHIPS {
        assert_eq!(chip.support_flash_protect(), supported);
    }
}

#[test]
fn fallback_families_agree_on_flash_protection() {
    let pairs = [
        (RiscvChip::CH32V30X, RiscvChip::CH32V20X),
        (RiscvChip::CH59X, RiscvChip::CH58X),
        (RiscvChip::CH32X035, RiscvChip::CH643),
        (RiscvChip::CH641, RiscvChip::CH32V003),
    ];
    for (chip, fallback) in pairs {
        assert_eq!(chip.support_flash_protect(), fallback.support_flash_protect());
    }
}

#[test]
fn errors_have_messages() {
    let messages = [
        (WchLinkError::UnknownDevice, "Unknown WCH-Link device(new variant?)"),
        (WchLinkError::UnsupportedFirmwareVersion, "Firmware version is not supported."),
        (WchLinkError::NotEnoughBytesWritten { is: 1, should: 2 }, "Not enough bytes written."),
        (WchLinkError::NotEnoughBytesRead { is: 1, should: 2 }, "Not enough bytes read."),
        (WchLinkError::EndpointNotFound, "Usb endpoint not found."),
        (WchLinkError::InvalidPayload, "Invalid payload."),
        (WchLinkError::Protocol(1, vec![2, 3]), "Protocl error."),
        (WchLinkError::UnknownChip(0x0f), "Unknown chip 0x0f"),
        (WchLinkError::UnknownChip(0xa0), "Unknown chip 0xa0"),
    ];
    for (error, message) in messages {
        assert_eq!(error.to_string(), message);
    }
}

#[test]
fn every_unknown_chip_is_shown_in_two_digits() {
    for chip in 0..=255u8 {
        assert_eq!(
            WchLinkError::UnknownChip(chip).to_string(),
            format!("Unknown chip 0x{:02x}", chip)
        );
    }
}

#[test]
fn errors_are_converted() {
    assert_eq!(
        DebugProbeError::from(WchLinkError::UnsupportedFirmwareVersion),
        DebugProbeError::ProbeFirmwareOutdated
    );
    assert_eq!(
        DebugProbeError::from(WchLinkError::UnknownChip(4)),
        DebugProbeError::ProbeSpecific(WchLinkError::UnknownChip(4))
    );
    assert_eq!(
        ProbeCreationError::from(WchLinkError::UnsupportedFirmwareVersion),
        ProbeCreationError::ProbeSpecific(WchLinkError::UnsupportedFirmwareVersion)
    );
}
