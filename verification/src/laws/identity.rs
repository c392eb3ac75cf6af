//! What the probe variants, the chip families and the errors are.

use crate::chip::RiscvChip;
use crate::error::{DebugProbeError, ProbeCreationError, WchLinkError};
use crate::variant::WchLinkVariant;
use vstd::prelude::*;
use vstd::std_specs::convert::FromSpec;

verus! {

/// The numbers and names of the four variants.
pub proof fn law_variants(variant: WchLinkVariant)
    ensures
        variant.code() == 1 <==> variant == WchLinkVariant::Ch549,
        variant.code() == 2 <==> variant == WchLinkVariant::ECh32v305,
        variant.code() == 3 <==> variant == WchLinkVariant::SCh32v203,
        variant.code() == 5 <==> variant == WchLinkVariant::WCh32v208,
        variant == WchLinkVariant::Ch549 ==> variant.label() == "WCH-Link-CH549"@,
        variant == WchLinkVariant::ECh32v305 ==> variant.label() == "WCH-LinkE-CH32V305"@,
        variant == WchLinkVariant::SCh32v203 ==> variant.label() == "WCH-LinkS-CH32V203"@,
        variant == WchLinkVariant::WCh32v208 ==> variant.label() == "WCH-LinkW-CH32V208"@,
{
}

/// Different variants have different names.
pub proof fn law_variant_names_differ(first: WchLinkVariant, second: WchLinkVariant)
    requires
        first.label() == second.label(),
    ensures
        first == second,
{
    reveal_strlit("WCH-Link-CH549");
    reveal_strlit("WCH-LinkE-CH32V305");
    reveal_strlit("WCH-LinkS-CH32V203");
    reveal_strlit("WCH-LinkW-CH32V208");
    assert("WCH-Link-CH549"@[8] == '-');
    assert("WCH-LinkE-CH32V305"@[8] == 'E');
    assert("WCH-LinkS-CH32V203"@[8] == 'S');
    assert("WCH-LinkW-CH32V208"@[8] == 'W');
}

/// The numbers that are no variant.
pub proof fn law_unknown_variant_numbers(value: u8)
    ensures
        WchLinkVariant::from_code(value) is None <==> value != 1 && value != 2 && value != 3
            && value != 5 && value != 0x12,
        WchLinkVariant::from_code(0x12) == Some(WchLinkVariant::ECh32v305),
{
}

/// The numbers of the chip families.
pub proof fn law_chips(chip: RiscvChip)
    ensures
        chip.code() == 0x01 <==> chip == RiscvChip::CH32V103,
        chip.code() == 0x02 <==> chip == RiscvChip::CH57X,
        chip.code() == 0x03 <==> chip == RiscvChip::CH56X,
        chip.code() == 0x05 <==> chip == RiscvChip::CH32V20X,
        chip.code() == 0x06 <==> chip == RiscvChip::CH32V30X,
        chip.code() == 0x07 <==> chip == RiscvChip::CH58X,
        chip.code() == 0x09 <==> chip == RiscvChip::CH32V003,
        chip.code() == 0x0A <==> chip == RiscvChip::CH8571,
        chip.code() == 0x0B <==> chip == RiscvChip::CH59X,
        chip.code() == 0x0C <==> chip == RiscvChip::CH643,
        chip.code() == 0x0D <==> chip == RiscvChip::CH32X035,
        chip.code() == 0x0E <==> chip == RiscvChip::CH32L103,
        chip.code() == 0x49 <==> chip == RiscvChip::CH641,
{
}

/// The numbers that are no chip family: 0x04, 0x08 and, but for 0x49, all from 0x0F on, and zero.
pub proof fn law_unknown_chip_numbers(value: u8)
    ensures
        RiscvChip::from_code(value) is None <==> value == 0 || value == 4 || value == 8 || (value
            > 0x0E && value != 0x49),
{
}

/// The families whose flash can be protected are the CH32V103, CH32V20X, CH32V30X, CH32V003,
/// CH643, CH32X035, CH32L103 and CH641, and no others.
pub proof fn law_flash_protection(value: u8)
    ensures
        RiscvChip::from_code(value) matches Some(chip) ==> (chip.flash_protect() <==> value == 0x01
            || value == 0x05 || value == 0x06 || value == 0x09 || (0x0C <= value <= 0x0E) || value
            == 0x49),
{
}

/// The flash of a family can be protected by which family it is.
pub proof fn law_flash_protection_of(chip: RiscvChip)
    ensures
        chip == RiscvChip::CH57X || chip == RiscvChip::CH56X || chip == RiscvChip::CH58X || chip
            == RiscvChip::CH8571 || chip == RiscvChip::CH59X <==> !chip.flash_protect(),
{
}

/// The messages of the errors. That of an unknown chip ends in its number, in two hexadecimal
/// digits.
pub proof fn law_messages(is: usize, should: usize, code: u8, payload: Vec<u8>, chip: u8)
    ensures
        WchLinkError::UnknownDevice.message() == "Unknown WCH-Link device(new variant?)"@,
        WchLinkError::UnsupportedFirmwareVersion.message() == "Firmware version is not supported."@,
        (WchLinkError::NotEnoughBytesWritten { is, should }).message()
            == "Not enough bytes written."@,
        (WchLinkError::NotEnoughBytesRead { is, should }).message() == "Not enough bytes read."@,
        WchLinkError::EndpointNotFound.message() == "Usb endpoint not found."@,
        WchLinkError::InvalidPayload.message() == "Invalid payload."@,
        WchLinkError::Protocol(code, payload).message() == "Protocl error."@,
        ({
            let message = WchLinkError::UnknownChip(chip).message();
            let digits = message.skip("Unknown chip 0x"@.len() as int);
            &&& message.take("Unknown chip 0x"@.len() as int) == "Unknown chip 0x"@
            &&& digits.len() == 2
            &&& 16 * crate::laws::encoding::hex_value(digits[0])
                + crate::laws::encoding::hex_value(digits[1]) == chip
            &&& '0' <= digits[0] <= '9' || 'a' <= digits[0] <= 'f'
            &&& '0' <= digits[1] <= '9' || 'a' <= digits[1] <= 'f'
        }),
{
    crate::laws::encoding::law_hex_byte(chip);
    let message = WchLinkError::UnknownChip(chip).message();
    let start = "Unknown chip 0x"@;
    assert(message.take(start.len() as int) =~= start);
    assert(message.skip(start.len() as int) =~= crate::text::hex_byte(chip));
}

/// Unsupported firmware is an outdated probe. Every other error of the WCH-Link is handed on, and
/// none is lost.
pub proof fn law_error_conversion(error: WchLinkError, other: WchLinkError)
    ensures
        <DebugProbeError as FromSpec<WchLinkError>>::from_spec(
            WchLinkError::UnsupportedFirmwareVersion,
        ) == DebugProbeError::ProbeFirmwareOutdated,
        !(error is UnsupportedFirmwareVersion) ==> <DebugProbeError as FromSpec<
            WchLinkError,
        >>::from_spec(error) == DebugProbeError::ProbeSpecific(error),
        <ProbeCreationError as FromSpec<WchLinkError>>::from_spec(error)
            == ProbeCreationError::ProbeSpecific(error),
        <DebugProbeError as FromSpec<WchLinkError>>::obeys_from_spec(),
        <ProbeCreationError as FromSpec<WchLinkError>>::obeys_from_spec(),
        <DebugProbeError as FromSpec<WchLinkError>>::from_spec(error) == <DebugProbeError as FromSpec<
            WchLinkError,
        >>::from_spec(other) ==> error == other,
{
}

} // verus!
