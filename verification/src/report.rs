//! Device reporting: the ordered sequence of informational records describing
//! one opened device — its identity, every interface and endpoint of its
//! active configuration, and its string descriptors.

use vstd::prelude::*;
use crate::discovery::AltSetting;
use crate::discovery::ConfigTree;
use crate::discovery::InterfaceTree;
use crate::records::LogRecord;
use crate::usb::Speed;

verus! {

/// Identity and addressing of one opened device.
pub struct DeviceSummary {
    pub bus: u8,
    pub address: u8,
    pub port: u8,
    pub speed: Speed,
    pub num_configurations: u8,
    pub vendor_id: u16,
    pub product_id: u16,
}

/// The device's string descriptors; empty where the device offers none.
pub struct StringDescriptors {
    pub manufacturer: String,
    pub product: String,
    pub serial: String,
}

/// The identity record of one device.
pub open spec fn device_record(info: DeviceSummary) -> LogRecord {
    LogRecord::Device {
        bus: info.bus,
        address: info.address,
        port: info.port,
        speed: info.speed,
        num_configs: info.num_configurations,
        vid: info.vendor_id,
        pid: info.product_id,
    }
}

/// The endpoint record for one endpoint of one alternate setting.
pub open spec fn endpoint_record(
    iface: u8,
    e: crate::discovery::EndpointDesc,
) -> LogRecord {
    LogRecord::EndpointInfo {
        iface,
        endpoint: e.number,
        direction: e.direction,
        transfer_type: e.transfer_type,
        address: e.address,
        interval: e.interval,
        length: e.length,
        max_packet_size: e.max_packet_size,
    }
}

/// One interface record followed by one record per endpoint it exposes.
pub open spec fn records_of_alt(alt: AltSetting) -> Seq<LogRecord> {
    seq![
        LogRecord::Interface {
            iface: alt.interface_number,
            class: alt.class_code,
            subclass: alt.sub_class_code,
            protocol_code: alt.protocol_code,
            length: alt.length,
        },
    ] + alt.endpoints@.map_values(|e: crate::discovery::EndpointDesc| endpoint_record(alt.interface_number, e))
}

/// The records of a sequence of alternate settings, in order.
pub open spec fn records_of_alts(alts: Seq<AltSetting>) -> Seq<LogRecord>
    decreases alts.len(),
{
    if alts.len() == 0 {
        Seq::empty()
    } else {
        records_of_alts(alts.drop_last()) + records_of_alt(alts.last())
    }
}

/// The records of a sequence of interfaces, in order.
pub open spec fn records_of_ifaces(ifaces: Seq<InterfaceTree>) -> Seq<LogRecord>
    decreases ifaces.len(),
{
    if ifaces.len() == 0 {
        Seq::empty()
    } else {
        records_of_ifaces(ifaces.drop_last()) + records_of_alts(ifaces.last().alt_settings@)
    }
}

fn alt_records(alt: &AltSetting) -> (r: Vec<LogRecord>)
    ensures
        r@ == records_of_alt(*alt),
{
    let mut r: Vec<LogRecord> = Vec::new();
    r.push(
        LogRecord::Interface {
            iface: alt.interface_number,
            class: alt.class_code,
            subclass: alt.sub_class_code,
            protocol_code: alt.protocol_code,
            length: alt.length,
        },
    );
    let mut i: usize = 0;
    while i < alt.endpoints.len()
        invariant
            i <= alt.endpoints@.len(),
            r@.len() == 1 + i as int,
            forall|k: int| 0 <= k < 1 + i ==> r@[k] == records_of_alt(*alt)[k],
        decreases alt.endpoints@.len() - i,
    {
        let e = alt.endpoints[i];
        r.push(
            LogRecord::EndpointInfo {
                iface: alt.interface_number,
                endpoint: e.number,
                direction: e.direction,
                transfer_type: e.transfer_type,
                address: e.address,
                interval: e.interval,
                length: e.length,
                max_packet_size: e.max_packet_size,
            },
        );
        i = i + 1;
    }
    proof {
        assert(r@ =~= records_of_alt(*alt));
    }
    r
}

fn interface_records(it: &InterfaceTree) -> (r: Vec<LogRecord>)
    ensures
        r@ == records_of_alts(it.alt_settings@),
{
    let mut r: Vec<LogRecord> = Vec::new();
    let mut i: usize = 0;
    while i < it.alt_settings.len()
        invariant
            i <= it.alt_settings@.len(),
            r@ == records_of_alts(it.alt_settings@.take(i as int)),
        decreases it.alt_settings@.len() - i,
    {
        let mut part = alt_records(&it.alt_settings[i]);
        r.append(&mut part);
        proof {
            let pre = it.alt_settings@.take(i as int + 1);
            assert(pre.drop_last() =~= it.alt_settings@.take(i as int));
            assert(pre.last() == it.alt_settings@[i as int]);
        }
        i = i + 1;
    }
    proof {
        assert(it.alt_settings@.take(it.alt_settings@.len() as int) =~= it.alt_settings@);
    }
    r
}

/// The full report for one opened device: its identity record first, then
/// one interface record per alternate setting of the active configuration,
/// each followed by the records of its endpoints, and the string descriptors
/// last.
pub fn describe_device(
    info: &DeviceSummary,
    active: &ConfigTree,
    strings: &StringDescriptors,
) -> (r: Vec<LogRecord>)
    ensures
        r@.len() == 2 + records_of_ifaces(active.interfaces@).len(),
        r@[0] == device_record(*info),
        r@.subrange(1, r@.len() - 1) == records_of_ifaces(active.interfaces@),
        (r@.last() matches LogRecord::Strings { manufacturer, serial, product }
            && manufacturer@ == strings.manufacturer@ && serial@ == strings.serial@ && product@
            == strings.product@),
{
    let mut r: Vec<LogRecord> = Vec::new();
    r.push(
        LogRecord::Device {
            bus: info.bus,
            address: info.address,
            port: info.port,
            speed: info.speed,
            num_configs: info.num_configurations,
            vid: info.vendor_id,
            pid: info.product_id,
        },
    );
    let mut i: usize = 0;
    while i < active.interfaces.len()
        invariant
            i <= active.interfaces@.len(),
            r@ == seq![device_record(*info)] + records_of_ifaces(
                active.interfaces@.take(i as int),
            ),
        decreases active.interfaces@.len() - i,
    {
        let mut part = interface_records(&active.interfaces[i]);
        r.append(&mut part);
        proof {
            let pre = active.interfaces@.take(i as int + 1);
            assert(pre.drop_last() =~= active.interfaces@.take(i as int));
            assert(pre.last() == active.interfaces@[i as int]);
        }
        i = i + 1;
    }
    proof {
        assert(active.interfaces@.take(active.interfaces@.len() as int) =~= active.interfaces@);
    }
    r.push(
        LogRecord::Strings {
            manufacturer: strings.manufacturer.clone(),
            serial: strings.serial.clone(),
            product: strings.product.clone(),
        },
    );
    proof {
        assert(r@.subrange(1, r@.len() - 1) =~= records_of_ifaces(active.interfaces@));
    }
    r
}

} // verus!
