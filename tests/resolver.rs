use deck_serial_client::port::{find_arduino_port, is_target_port, PortDescriptor, PortType, UsbInfo};

fn usb(name: &str, manufacturer: Option<&str>, product: Option<&str>) -> PortDescriptor {
    PortDescriptor {
        port_name: name.to_string(),
        port_type: PortType::Usb(UsbInfo {
            manufacturer: manufacturer.map(|m| m.to_string()),
            product: product.map(|p| p.to_string()),
        }),
    }
}

fn other(name: &str) -> PortDescriptor {
    PortDescriptor { port_name: name.to_string(), port_type: PortType::Other }
}

#[test]
fn resolves_usb_device_after_other_port() {
    let ports = vec![
        other("COM3"),
        usb("/dev/ttyACM0", Some("Arduino LLC"), Some("Arduino Uno")),
    ];
    let found = find_arduino_port(&ports).expect("device should be found");
    assert_eq!(found.port_name, "/dev/ttyACM0");
    assert_eq!(found, &ports[1]);
}

#[test]
fn empty_list_resolves_none() {
    let ports: Vec<PortDescriptor> = vec![];
    assert!(find_arduino_port(&ports).is_none());
}

#[test]
fn no_matching_descriptor_resolves_none() {
    let ports = vec![
        other("/dev/ttyS0"),
        usb("/dev/ttyUSB0", Some("FTDI"), Some("FT232R USB UART")),
        usb("/dev/ttyACM1", Some("Arduino"), Some("Arduino Uno")),
        usb("/dev/ttyACM2", Some("Arduino LLC"), Some("Genuino Uno")),
        usb("/dev/ttyACM3", Some("arduino llc"), Some("Arduino Uno")),
    ];
    assert!(find_arduino_port(&ports).is_none());
}

#[test]
fn first_of_several_matches_is_selected() {
    let ports = vec![
        usb("/dev/ttyUSB0", Some("FTDI"), Some("Arduino clone")),
        usb("/dev/ttyACM0", Some("Arduino LLC"), Some("Arduino Leonardo")),
        usb("/dev/ttyACM1", Some("Arduino LLC"), Some("Arduino Uno")),
    ];
    let found = find_arduino_port(&ports).expect("device should be found");
    assert_eq!(found.port_name, "/dev/ttyACM0");
}

#[test]
fn product_needs_only_contain_the_mark() {
    let ports = vec![usb("/dev/ttyACM4", Some("Arduino LLC"), Some("Genuino/Arduino Mega 2560"))];
    assert_eq!(find_arduino_port(&ports).map(|p| p.port_name.clone()), Some("/dev/ttyACM4".to_string()));
}

#[test]
fn missing_usb_fields_never_match() {
    let ports = vec![
        usb("/dev/ttyACM0", None, None),
        usb("/dev/ttyACM1", Some("Arduino LLC"), None),
        usb("/dev/ttyACM2", None, Some("Arduino Uno")),
    ];
    assert!(find_arduino_port(&ports).is_none());
    for p in &ports {
        assert!(!is_target_port(p));
    }
}

#[test]
fn single_descriptor_checks() {
    assert!(is_target_port(&usb("a", Some("Arduino LLC"), Some("Arduino"))));
    assert!(!is_target_port(&usb("b", Some("Arduino LLC"), Some("Ardu"))));
    assert!(!is_target_port(&usb("c", Some("Arduino LLC"), Some("arduino uno"))));
    assert!(!is_target_port(&other("d")));
}

#[test]
fn repeated_resolution_is_stable() {
    let ports = vec![
        other("COM1"),
        usb("/dev/ttyACM0", Some("Arduino LLC"), Some("Arduino Uno")),
        usb("/dev/ttyACM1", Some("Arduino LLC"), Some("Arduino Uno")),
    ];
    let first = find_arduino_port(&ports).map(|p| p.port_name.clone());
    for _ in 0..5 {
        assert_eq!(find_arduino_port(&ports).map(|p| p.port_name.clone()), first);
    }
    assert_eq!(first, Some("/dev/ttyACM0".to_string()));
}
