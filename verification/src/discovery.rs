//! Finding the probes among the USB devices.

use vstd::prelude::*;

verus! {

/// USB vendor id of the probes.
pub const VENDOR_ID: u16 = 0x1a86;

/// USB product id of the probes.
pub const PRODUCT_ID: u16 = 0x8010;

/// The kinds of debug probes.
#[derive(Clone, Copy, Debug, PartialEq, Eq, Structural)]
pub enum DebugProbeType {
    /// WCH-Link
    WchLink,
}

/// A debug probe that was found.
#[derive(Debug, PartialEq, Eq)]
pub struct DebugProbeInfo {
    /// Name of the probe.
    pub identifier: String,
    /// USB vendor id.
    pub vendor_id: u16,
    /// USB product id.
    pub product_id: u16,
    /// Serial number, if it is known.
    pub serial_number: Option<String>,
    /// Kind of the probe.
    pub probe_type: DebugProbeType,
    /// USB HID interface, if the probe is to be used through one.
    pub hid_interface: Option<u8>,
}

/// The view of a [`DebugProbeInfo`].
pub struct DebugProbeInfoView {
    pub identifier: Seq<char>,
    pub vendor_id: u16,
    pub product_id: u16,
    pub serial_number: Option<Seq<char>>,
    pub probe_type: DebugProbeType,
    pub hid_interface: Option<u8>,
}

/// The view of an optional string.
pub open spec fn text_view(text: Option<String>) -> Option<Seq<char>> {
    match text {
        Some(text) => Some(text@),
        None => None,
    }
}

impl View for DebugProbeInfo {
    type V = DebugProbeInfoView;

    open spec fn view(&self) -> DebugProbeInfoView {
        DebugProbeInfoView {
            identifier: self.identifier@,
            vendor_id: self.vendor_id,
            product_id: self.product_id,
            serial_number: text_view(self.serial_number),
            probe_type: self.probe_type,
            hid_interface: self.hid_interface,
        }
    }
}

/// A USB device, as far as it could be read.
#[derive(Debug)]
pub struct UsbDevice {
    /// Vendor id and product id of the device descriptor.
    pub ids: Option<(u16, u16)>,
    /// Product string. It is only needed of the devices that have the ids of the probes.
    pub product: Option<String>,
    /// Serial number. It is only needed of the devices that have the ids of the probes.
    pub serial_number: Option<String>,
}

/// Whether the vendor id and product id, if they could be read, are those of the probes.
pub open spec fn wlink_ids(ids: Option<(u16, u16)>) -> bool {
    ids == Some((VENDOR_ID, PRODUCT_ID))
}

/// The probe that a device with the ids of the probes is: its product string has to be the one of
/// the probes.
pub open spec fn wlink_info(
    product: Option<Seq<char>>,
    serial_number: Option<Seq<char>>,
) -> Option<DebugProbeInfoView> {
    if product == Some("WCH-Link"@) {
        Some(
            DebugProbeInfoView {
                identifier: "WCH-Link"@,
                vendor_id: VENDOR_ID,
                product_id: PRODUCT_ID,
                serial_number,
                probe_type: DebugProbeType::WchLink,
                hid_interface: None,
            },
        )
    } else {
        None
    }
}

/// The probes among the devices, in the order of the devices.
pub open spec fn wlink_listing(devices: Seq<UsbDevice>) -> Seq<DebugProbeInfoView>
    decreases devices.len(),
{
    if devices.len() == 0 {
        Seq::empty()
    } else {
        let device = devices.last();
        let listed = wlink_listing(devices.drop_last());
        match wlink_info(text_view(device.product), text_view(device.serial_number)) {
            Some(info) if wlink_ids(device.ids) => listed.push(info),
            _ => listed,
        }
    }
}

/// Whether the vendor id and product id, if they could be read, are those of the probes.
pub fn has_wlink_ids(ids: Option<(u16, u16)>) -> (has: bool)
    ensures
        has == wlink_ids(ids),
{
    match ids {
        Some((vendor_id, product_id)) => vendor_id == VENDOR_ID && product_id == PRODUCT_ID,
        None => false,
    }
}

/// The probe that a device with the ids of the probes is, if its product string could be read and
/// is the one of the probes.
pub fn get_wlink_info(product: Option<String>, serial_number: Option<String>) -> (info: Option<
    DebugProbeInfo,
>)
    ensures
        match info {
            Some(info) => Some(info@) == wlink_info(text_view(product), text_view(serial_number)),
            None => wlink_info(text_view(product), text_view(serial_number)) is None,
        },
{
    match product {
        Some(product) => {
            let identifier: String = "WCH-Link".to_owned();
            if product == identifier {
                Some(
                    DebugProbeInfo {
                        identifier,
                        vendor_id: VENDOR_ID,
                        product_id: PRODUCT_ID,
                        serial_number,
                        probe_type: DebugProbeType::WchLink,
                        hid_interface: None,
                    },
                )
            } else {
                None
            }
        },
        None => None,
    }
}

/// A copy of an optional string.
fn copy_text(text: &Option<String>) -> (copy: Option<String>)
    ensures
        text_view(copy) == text_view(*text),
{
    match text {
        Some(text) => Some(text.clone()),
        None => None,
    }
}

/// Lists the probes among the USB devices. If the devices could not be listed, there are none.
pub fn list_wlink_devices(devices: Option<Vec<UsbDevice>>) -> (probes: Vec<DebugProbeInfo>)
    ensures
        probes@.map_values(|probe: DebugProbeInfo| probe@) == (match devices {
            Some(devices) => wlink_listing(devices@),
            None => Seq::empty(),
        }),
{
    let mut probes: Vec<DebugProbeInfo> = Vec::new();
    let ghost to_view = |probe: DebugProbeInfo| probe@;
    match devices {
        Some(devices) => {
            let mut i: usize = 0;
            assert(devices@.take(0) =~= Seq::<UsbDevice>::empty());
            assert(probes@.map_values(to_view) =~= Seq::empty());
            while i < devices.len()
                invariant
                    i <= devices@.len(),
                    to_view == (|probe: DebugProbeInfo| probe@),
                    probes@.map_values(to_view) == wlink_listing(devices@.take(i as int)),
                decreases devices@.len() - i,
            {
                let device = &devices[i];
                let ghost listed = probes@;
                assert(devices@.take(i + 1).drop_last() =~= devices@.take(i as int));
                if has_wlink_ids(device.ids) {
                    match get_wlink_info(
                        copy_text(&device.product),
                        copy_text(&device.serial_number),
                    ) {
                        Some(info) => {
                            probes.push(info);
                            assert(probes@.map_values(to_view) =~= listed.map_values(to_view).push(
                                info@,
                            ));
                        },
                        None => {},
                    }
                }
                i = i + 1;
            }
            assert(devices@.take(i as int) =~= devices@);
        },
        None => {
            assert(probes@.map_values(to_view) =~= Seq::empty());
        },
    }
    probes
}

} // verus!
