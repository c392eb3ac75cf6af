//! Which USB devices are probes.

use crate::discovery::{DebugProbeInfo, DebugProbeInfoView, DebugProbeType, UsbDevice};
use vstd::prelude::*;

verus! {

/// A device has the ids of the probes exactly if its descriptor could be read and holds both.
pub proof fn law_ids(vendor_id: u16, product_id: u16)
    ensures
        crate::discovery::wlink_ids(Some((vendor_id, product_id))) <==> vendor_id == 0x1a86
            && product_id == 0x8010,
        !crate::discovery::wlink_ids(None),
{
}

/// A device with the ids is a probe exactly if its product string could be read and is the one of
/// the probes. The serial number goes into what is known of the probe, and decides nothing.
pub proof fn law_product_string(product: Seq<char>, serial_number: Option<Seq<char>>)
    ensures
        crate::discovery::wlink_info(None, serial_number) is None,
        crate::discovery::wlink_info(Some(product), serial_number) is Some <==> product
            == "WCH-Link"@,
        crate::discovery::wlink_info(Some(product), serial_number) matches Some(info) ==> {
            &&& info.identifier == product
            &&& info.vendor_id == 0x1a86
            &&& info.product_id == 0x8010
            &&& info.serial_number == serial_number
            &&& info.probe_type == DebugProbeType::WchLink
            &&& info.hid_interface is None
        },
{
}

/// What is stated of a probe that was found is stated of what its fields hold.
pub proof fn law_probe_info_view(info: DebugProbeInfo, text: String)
    ensures
        info@.identifier == info.identifier@,
        info@.vendor_id == info.vendor_id,
        info@.product_id == info.product_id,
        info@.probe_type == info.probe_type,
        info@.hid_interface == info.hid_interface,
        info.serial_number is None <==> info@.serial_number is None,
        info.serial_number matches Some(serial) ==> info@.serial_number == Some(serial@),
        crate::discovery::text_view(Some(text)) == Some(text@),
        crate::discovery::text_view(None) is None,
{
}

/// Without devices nothing is listed, and one more device adds at most itself, at the end.
pub proof fn law_one_more_device(devices: Seq<UsbDevice>, device: UsbDevice)
    ensures
        crate::discovery::wlink_listing(Seq::empty()) == Seq::<DebugProbeInfoView>::empty(),
        ({
            let before = crate::discovery::wlink_listing(devices);
            let after = crate::discovery::wlink_listing(devices.push(device));
            let is_probe = device.ids == Some((0x1a86u16, 0x8010u16)) && (
            device.product matches Some(product) && product@ == "WCH-Link"@);
            &&& !is_probe ==> after == before
            &&& is_probe ==> after.len() == before.len() + 1 && after.drop_last() == before
                && after.last().serial_number == crate::discovery::text_view(device.serial_number)
        }),
{
    assert(devices.push(device).drop_last() =~= devices);
    let before = crate::discovery::wlink_listing(devices);
    let after = crate::discovery::wlink_listing(devices.push(device));
    if after.len() > before.len() {
        assert(after.drop_last() =~= before);
    }
}

} // verus!
