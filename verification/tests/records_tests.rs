use usbpoll::discovery::AltSetting;
use usbpoll::discovery::ConfigTree;
use usbpoll::discovery::EndpointDesc;
use usbpoll::discovery::InterfaceTree;
use usbpoll::records::Level;
use usbpoll::records::LogRecord;
use usbpoll::report::DeviceSummary;
use usbpoll::report::StringDescriptors;
use usbpoll::report::describe_device;
use usbpoll::usb::Direction;
use usbpoll::usb::Speed;
use usbpoll::usb::TransferType;
use usbpoll::usb::TransportError;

#[test]
fn record_severities() {
    let read = LogRecord::Read { len: 0, hex: String::new(), iface: 0, endpoint: 1 };
    assert_eq!(read.level(), Level::Info);
    let timeout = LogRecord::Timeout { iface: 0, endpoint: 1 };
    assert_eq!(timeout.level(), Level::Debug);
    let not_in = LogRecord::NotIn { iface: 0, endpoint: 1 };
    assert_eq!(not_in.level(), Level::Warn);
    let failed = LogRecord::Failed { iface: 0, endpoint: 1, error: TransportError::Pipe };
    assert_eq!(failed.level(), Level::Error);
    let strings = LogRecord::Strings {
        manufacturer: String::new(),
        serial: String::new(),
        product: String::new(),
    };
    assert_eq!(strings.level(), Level::Info);
}

#[test]
fn device_report_lists_identity_interfaces_endpoints_and_strings() {
    let summary = DeviceSummary {
        bus: 3,
        address: 7,
        port: 2,
        speed: Speed::High,
        num_configurations: 1,
        vendor_id: 0x1d6b,
        product_id: 0x8030,
    };
    let active = ConfigTree {
        number: 1,
        interfaces: vec![InterfaceTree {
            alt_settings: vec![AltSetting {
                interface_number: 0,
                setting_number: 0,
                class_code: 255,
                sub_class_code: 1,
                protocol_code: 2,
                length: 9,
                endpoints: vec![
                    EndpointDesc {
                        number: 1,
                        address: 0x81,
                        direction: Direction::In,
                        transfer_type: TransferType::Bulk,
                        max_packet_size: 64,
                        interval: 0,
                        length: 7,
                    },
                    EndpointDesc {
                        number: 2,
                        address: 0x02,
                        direction: Direction::Out,
                        transfer_type: TransferType::Bulk,
                        max_packet_size: 64,
                        interval: 0,
                        length: 7,
                    },
                ],
            }],
        }],
    };
    let strings = StringDescriptors {
        manufacturer: String::from("ARTOSYN"),
        product: String::from("RTOS"),
        serial: String::from("0001"),
    };
    let report = describe_device(&summary, &active, &strings);
    assert_eq!(report.len(), 5);
    match &report[0] {
        LogRecord::Device { bus, address, port, speed, num_configs, vid, pid } => {
            assert_eq!(*bus, 3);
            assert_eq!(*address, 7);
            assert_eq!(*port, 2);
            assert_eq!(*speed, Speed::High);
            assert_eq!(*num_configs, 1);
            assert_eq!(*vid, 0x1d6b);
            assert_eq!(*pid, 0x8030);
        }
        _ => panic!("expected the device record first"),
    }
    match &report[1] {
        LogRecord::Interface { iface, class, subclass, protocol_code, length } => {
            assert_eq!(*iface, 0);
            assert_eq!(*class, 255);
            assert_eq!(*subclass, 1);
            assert_eq!(*protocol_code, 2);
            assert_eq!(*length, 9);
        }
        _ => panic!("expected an interface record second"),
    }
    match &report[2] {
        LogRecord::EndpointInfo { iface, endpoint, direction, address, max_packet_size, .. } => {
            assert_eq!(*iface, 0);
            assert_eq!(*endpoint, 1);
            assert_eq!(*direction, Direction::In);
            assert_eq!(*address, 0x81);
            assert_eq!(*max_packet_size, 64);
        }
        _ => panic!("expected an endpoint record third"),
    }
    assert!(matches!(&report[3], LogRecord::EndpointInfo { endpoint: 2, .. }));
    match &report[4] {
        LogRecord::Strings { manufacturer, serial, product } => {
            assert_eq!(manufacturer, "ARTOSYN");
            assert_eq!(serial, "0001");
            assert_eq!(product, "RTOS");
        }
        _ => panic!("expected the string descriptors last"),
    }
}
