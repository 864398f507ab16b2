//! Endpoint discovery: flattening a device's configuration -> interface ->
//! alternate-setting -> endpoint descriptor tree into the ordered sequence of
//! endpoint records.
//!
//! The tree is plain data handed in by the surrounding program, one entry per
//! configuration index; a configuration whose descriptor could not be read is
//! a `None` entry and is skipped, not fatal. Discovery itself is read-only
//! and returns every endpoint of every direction.

use vstd::prelude::*;
use crate::usb::Direction;
use crate::usb::Endpoint;
use crate::usb::TransferType;

verus! {

/// One endpoint descriptor as it stands in the tree, before flattening.
#[derive(Clone, Copy, Debug, PartialEq, Eq, Structural)]
pub struct EndpointDesc {
    pub number: u8,
    pub address: u8,
    pub direction: Direction,
    pub transfer_type: TransferType,
    pub max_packet_size: u16,
    pub interval: u8,
    pub length: u8,
}

/// One interface descriptor: an alternate setting of its interface, with the
/// endpoints it exposes.
pub struct AltSetting {
    pub interface_number: u8,
    pub setting_number: u8,
    pub class_code: u8,
    pub sub_class_code: u8,
    pub protocol_code: u8,
    pub length: u8,
    pub endpoints: Vec<EndpointDesc>,
}

/// One interface: the group of its alternate settings.
pub struct InterfaceTree {
    pub alt_settings: Vec<AltSetting>,
}

/// One configuration descriptor with its interfaces.
pub struct ConfigTree {
    pub number: u8,
    pub interfaces: Vec<InterfaceTree>,
}

/// A device's whole descriptor tree: one entry per configuration index, in
/// index order; `None` where that configuration's descriptor could not be
/// read.
pub struct DeviceTree {
    pub configs: Vec<Option<ConfigTree>>,
}

/// The flattened record for one endpoint of one alternate setting of one
/// configuration.
pub open spec fn endpoint_of(cfg_number: u8, alt: AltSetting, e: EndpointDesc) -> Endpoint {
    Endpoint {
        config: cfg_number,
        iface: alt.interface_number,
        setting: alt.setting_number,
        number: e.number,
        address: e.address,
        direction: e.direction,
        max_packet_size: e.max_packet_size,
        transfer_type: e.transfer_type,
    }
}

/// All endpoints of one alternate setting, in descriptor order.
pub open spec fn eps_of_alt(cfg_number: u8, alt: AltSetting) -> Seq<Endpoint> {
    alt.endpoints@.map_values(|e: EndpointDesc| endpoint_of(cfg_number, alt, e))
}

/// All endpoints of a sequence of alternate settings, in order.
pub open spec fn eps_of_alts(cfg_number: u8, alts: Seq<AltSetting>) -> Seq<Endpoint>
    decreases alts.len(),
{
    if alts.len() == 0 {
        Seq::empty()
    } else {
        eps_of_alts(cfg_number, alts.drop_last()) + eps_of_alt(cfg_number, alts.last())
    }
}

/// All endpoints of a sequence of interfaces, in order.
pub open spec fn eps_of_ifaces(cfg_number: u8, ifaces: Seq<InterfaceTree>) -> Seq<Endpoint>
    decreases ifaces.len(),
{
    if ifaces.len() == 0 {
        Seq::empty()
    } else {
        eps_of_ifaces(cfg_number, ifaces.drop_last()) + eps_of_alts(
            cfg_number,
            ifaces.last().alt_settings@,
        )
    }
}

/// All endpoints of one configuration; an unreadable configuration
/// contributes nothing.
pub open spec fn eps_of_config(oc: Option<ConfigTree>) -> Seq<Endpoint> {
    match oc {
        None => Seq::empty(),
        Some(c) => eps_of_ifaces(c.number, c.interfaces@),
    }
}

/// The ordered sequence of every endpoint the device exposes, across every
/// configuration, interface and alternate setting.
pub open spec fn device_endpoints(configs: Seq<Option<ConfigTree>>) -> Seq<Endpoint>
    decreases configs.len(),
{
    if configs.len() == 0 {
        Seq::empty()
    } else {
        device_endpoints(configs.drop_last()) + eps_of_config(configs.last())
    }
}

fn endpoints_of_alt(cfg_number: u8, alt: &AltSetting) -> (r: Vec<Endpoint>)
    ensures
        r@ == eps_of_alt(cfg_number, *alt),
{
    let mut r: Vec<Endpoint> = Vec::new();
    let mut i: usize = 0;
    while i < alt.endpoints.len()
        invariant
            i <= alt.endpoints@.len(),
            r@.len() == i as int,
            forall|k: int| 0 <= k < i ==> r@[k] == eps_of_alt(cfg_number, *alt)[k],
        decreases alt.endpoints@.len() - i,
    {
        let e = alt.endpoints[i];
        r.push(
            Endpoint {
                config: cfg_number,
                iface: alt.interface_number,
                setting: alt.setting_number,
                number: e.number,
                address: e.address,
                direction: e.direction,
                max_packet_size: e.max_packet_size,
                transfer_type: e.transfer_type,
            },
        );
        i = i + 1;
    }
    proof {
        assert(r@ =~= eps_of_alt(cfg_number, *alt));
    }
    r
}

fn endpoints_of_interface(cfg_number: u8, it: &InterfaceTree) -> (r: Vec<Endpoint>)
    ensures
        r@ == eps_of_alts(cfg_number, it.alt_settings@),
{
    let mut r: Vec<Endpoint> = Vec::new();
    let mut i: usize = 0;
    while i < it.alt_settings.len()
        invariant
            i <= it.alt_settings@.len(),
            r@ == eps_of_alts(cfg_number, it.alt_settings@.take(i as int)),
        decreases it.alt_settings@.len() - i,
    {
        let mut part = endpoints_of_alt(cfg_number, &it.alt_settings[i]);
        r.append(&mut part);
        proof {
            let pre = it.alt_settings@.take(i as int + 1);
            assert(pre.drop_last() =~= it.alt_settings@.take(i as int));
            assert(pre.last() == it.alt_settings@[i as int]);
        }
        i = i + 1;
    }
    proof {
        assert(it.alt_settings@.take(it.alt_settings@.len() as int) =~= it.alt_settings@);
    }
    r
}

fn endpoints_of_config(c: &ConfigTree) -> (r: Vec<Endpoint>)
    ensures
        r@ == eps_of_ifaces(c.number, c.interfaces@),
{
    let mut r: Vec<Endpoint> = Vec::new();
    let mut i: usize = 0;
    while i < c.interfaces.len()
        invariant
            i <= c.interfaces@.len(),
            r@ == eps_of_ifaces(c.number, c.interfaces@.take(i as int)),
        decreases c.interfaces@.len() - i,
    {
        let mut part = endpoints_of_interface(c.number, &c.interfaces[i]);
        r.append(&mut part);
        proof {
            let pre = c.interfaces@.take(i as int + 1);
            assert(pre.drop_last() =~= c.interfaces@.take(i as int));
            assert(pre.last() == c.interfaces@[i as int]);
        }
        i = i + 1;
    }
    proof {
        assert(c.interfaces@.take(c.interfaces@.len() as int) =~= c.interfaces@);
    }
    r
}

/// Walks the whole tree and flattens it: the result holds every endpoint of
/// every readable configuration, in tree order, each with the coordinates of
/// the configuration, interface and alternate setting it came from.
/// Unreadable configurations were skipped when the tree was built and
/// contribute nothing.
pub fn find_endpoints(device: &DeviceTree) -> (r: Vec<Endpoint>)
    ensures
        r@ == device_endpoints(device.configs@),
{
    let mut r: Vec<Endpoint> = Vec::new();
    let mut i: usize = 0;
    while i < device.configs.len()
        invariant
            i <= device.configs@.len(),
            r@ == device_endpoints(device.configs@.take(i as int)),
        decreases device.configs@.len() - i,
    {
        match &device.configs[i] {
            Some(c) => {
                let mut part = endpoints_of_config(c);
                r.append(&mut part);
            },
            None => (),
        }
        proof {
            let pre = device.configs@.take(i as int + 1);
            assert(pre.drop_last() =~= device.configs@.take(i as int));
            assert(pre.last() == device.configs@[i as int]);
        }
        i = i + 1;
    }
    proof {
        assert(device.configs@.take(device.configs@.len() as int) =~= device.configs@);
    }
    r
}

/// Law: discovery is deterministic. Any two flattenings of the same
/// unmodified device tree are the same ordered sequence of endpoint records,
/// so running discovery twice yields equal results in equal order.
pub proof fn lemma_discovery_deterministic(
    configs: Seq<Option<ConfigTree>>,
    r1: Seq<Endpoint>,
    r2: Seq<Endpoint>,
)
    requires
        r1 == device_endpoints(configs),
        r2 == device_endpoints(configs),
    ensures
        r1 == r2,
{
}

/// The endpoints whose poll threads are to be spawned: exactly the IN
/// endpoints of the discovered sequence, in discovery order.
pub fn poll_targets(endpoints: &Vec<Endpoint>) -> (r: Vec<Endpoint>)
    ensures
        r@ == endpoints@.filter(|e: Endpoint| e.direction == Direction::In),
{
    let mut r: Vec<Endpoint> = Vec::new();
    let mut i: usize = 0;
    while i < endpoints.len()
        invariant
            i <= endpoints@.len(),
            r@ == endpoints@.take(i as int).filter(|e: Endpoint| e.direction == Direction::In),
        decreases endpoints@.len() - i,
    {
        let e = endpoints[i];
        if e.is_in() {
            r.push(e);
        }
        proof {
            let p = |e: Endpoint| e.direction == Direction::In;
            let pre = endpoints@.take(i as int + 1);
            assert(pre.drop_last() =~= endpoints@.take(i as int));
            assert(pre.last() == endpoints@[i as int]);
            reveal(Seq::filter);
        }
        i = i + 1;
    }
    proof {
        assert(endpoints@.take(endpoints@.len() as int) =~= endpoints@);
    }
    r
}

} // verus!
