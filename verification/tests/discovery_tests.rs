use usbpoll::discovery::AltSetting;
use usbpoll::discovery::ConfigTree;
use usbpoll::discovery::DeviceTree;
use usbpoll::discovery::EndpointDesc;
use usbpoll::discovery::InterfaceTree;
use usbpoll::discovery::find_endpoints;
use usbpoll::discovery::poll_targets;
use usbpoll::usb::Direction;
use usbpoll::usb::TransferType;

fn bulk_in_endpoint(number: u8, address: u8, max_packet_size: u16) -> EndpointDesc {
    EndpointDesc {
        number,
        address,
        direction: Direction::In,
        transfer_type: TransferType::Bulk,
        max_packet_size,
        interval: 0,
        length: 7,
    }
}

fn bulk_out_endpoint(number: u8, address: u8) -> EndpointDesc {
    EndpointDesc {
        number,
        address,
        direction: Direction::Out,
        transfer_type: TransferType::Bulk,
        max_packet_size: 64,
        interval: 0,
        length: 7,
    }
}

fn alt(iface: u8, setting: u8, endpoints: Vec<EndpointDesc>) -> AltSetting {
    AltSetting {
        interface_number: iface,
        setting_number: setting,
        class_code: 255,
        sub_class_code: 0,
        protocol_code: 0,
        length: 9,
        endpoints,
    }
}

fn single_in_bulk_device() -> DeviceTree {
    DeviceTree {
        configs: vec![Some(ConfigTree {
            number: 1,
            interfaces: vec![InterfaceTree {
                alt_settings: vec![alt(0, 0, vec![bulk_in_endpoint(1, 0x81, 64)])],
            }],
        })],
    }
}

#[test]
fn scenario_a_discovery_finds_one_in_endpoint() {
    let device = single_in_bulk_device();
    let endpoints = find_endpoints(&device);
    assert_eq!(endpoints.len(), 1);
    let e = endpoints[0];
    assert_eq!(e.config, 1);
    assert_eq!(e.iface, 0);
    assert_eq!(e.setting, 0);
    assert_eq!(e.number, 1);
    assert_eq!(e.address, 0x81);
    assert_eq!(e.direction, Direction::In);
    assert_eq!(e.max_packet_size, 64);
    assert_eq!(e.transfer_type, TransferType::Bulk);
    // exactly one poll thread would be spawned
    let targets = poll_targets(&endpoints);
    assert_eq!(targets.len(), 1);
    assert_eq!(targets[0], e);
}

#[test]
fn discovery_is_idempotent() {
    let device = single_in_bulk_device();
    let first = find_endpoints(&device);
    let second = find_endpoints(&device);
    assert_eq!(first, second);

    let richer = DeviceTree {
        configs: vec![
            None,
            Some(ConfigTree {
                number: 2,
                interfaces: vec![
                    InterfaceTree {
                        alt_settings: vec![
                            alt(0, 0, vec![bulk_in_endpoint(1, 0x81, 64), bulk_out_endpoint(2, 0x02)]),
                            alt(0, 1, vec![bulk_in_endpoint(3, 0x83, 512)]),
                        ],
                    },
                    InterfaceTree { alt_settings: vec![alt(1, 0, vec![])] },
                ],
            }),
        ],
    };
    let first = find_endpoints(&richer);
    let second = find_endpoints(&richer);
    assert_eq!(first, second);
}

#[test]
fn unreadable_configuration_is_skipped_not_fatal() {
    let device = DeviceTree {
        configs: vec![
            None,
            Some(ConfigTree {
                number: 2,
                interfaces: vec![InterfaceTree {
                    alt_settings: vec![alt(3, 0, vec![bulk_in_endpoint(1, 0x81, 64)])],
                }],
            }),
            None,
        ],
    };
    let endpoints = find_endpoints(&device);
    assert_eq!(endpoints.len(), 1);
    assert_eq!(endpoints[0].config, 2);
    assert_eq!(endpoints[0].iface, 3);
}

#[test]
fn device_without_endpoints_yields_empty_sequence() {
    let no_configs = DeviceTree { configs: vec![] };
    assert!(find_endpoints(&no_configs).is_empty());

    let empty_config = DeviceTree {
        configs: vec![Some(ConfigTree { number: 1, interfaces: vec![] })],
    };
    assert!(find_endpoints(&empty_config).is_empty());
}

#[test]
fn flattening_keeps_tree_order() {
    let device = DeviceTree {
        configs: vec![
            Some(ConfigTree {
                number: 1,
                interfaces: vec![InterfaceTree {
                    alt_settings: vec![
                        alt(0, 0, vec![bulk_in_endpoint(1, 0x81, 64), bulk_out_endpoint(2, 0x02)]),
                        alt(0, 1, vec![bulk_in_endpoint(3, 0x83, 512)]),
                    ],
                }],
            }),
            Some(ConfigTree {
                number: 2,
                interfaces: vec![InterfaceTree {
                    alt_settings: vec![alt(1, 0, vec![bulk_out_endpoint(4, 0x04)])],
                }],
            }),
        ],
    };
    let endpoints = find_endpoints(&device);
    let numbers: Vec<u8> = endpoints.iter().map(|e| e.number).collect();
    assert_eq!(numbers, vec![1, 2, 3, 4]);
    let configs: Vec<u8> = endpoints.iter().map(|e| e.config).collect();
    assert_eq!(configs, vec![1, 1, 1, 2]);
    let settings: Vec<u8> = endpoints.iter().map(|e| e.setting).collect();
    assert_eq!(settings, vec![0, 0, 1, 0]);
}

#[test]
fn poll_targets_are_exactly_the_in_endpoints_in_order() {
    let device = DeviceTree {
        configs: vec![Some(ConfigTree {
            number: 1,
            interfaces: vec![InterfaceTree {
                alt_settings: vec![alt(
                    0,
                    0,
                    vec![
                        bulk_out_endpoint(1, 0x01),
                        bulk_in_endpoint(2, 0x82, 64),
                        bulk_out_endpoint(3, 0x03),
                        bulk_in_endpoint(4, 0x84, 512),
                    ],
                )],
            }],
        })],
    };
    let endpoints = find_endpoints(&device);
    assert_eq!(endpoints.len(), 4);
    let targets = poll_targets(&endpoints);
    assert_eq!(targets.len(), 2);
    assert_eq!(targets[0].number, 2);
    assert_eq!(targets[1].number, 4);
    assert!(targets.iter().all(|e| e.direction == Direction::In));
}
