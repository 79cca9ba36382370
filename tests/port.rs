use std::cell::Cell;

use mtkport::error::Error;
use mtkport::port::{find_device, PortInfo, PortKind, SerialMTKPort, UsbId};
use mtkport::registry::ConnectionType;

fn usb(name: &str, vid: u16, pid: u16) -> PortInfo {
    PortInfo { port_name: name.to_string(), port_type: PortKind::Usb(UsbId { vid, pid }) }
}

#[test]
fn from_port_info_sets_mode_and_baud() {
    let p: SerialMTKPort<u32> = SerialMTKPort::from_port_info(usb("/dev/ttyACM0", 0x0E8D, 0x0003)).unwrap();
    assert_eq!(p.get_connection_type(), ConnectionType::Brom);
    assert_eq!(p.get_baudrate(), 115_200);
    assert_eq!(p.get_port_name(), "/dev/ttyACM0");
    assert!(!p.is_open());
    let q: SerialMTKPort<u32> = SerialMTKPort::from_port_info(usb("/dev/ttyACM1", 0x0E8D, 0x2001)).unwrap();
    assert_eq!(q.get_connection_type(), ConnectionType::Da);
    assert_eq!(q.get_baudrate(), 921_600);
}

#[test]
fn from_port_info_rejects_unknown_and_non_usb() {
    let p: Option<SerialMTKPort<u32>> = SerialMTKPort::from_port_info(usb("/dev/ttyUSB0", 0x1234, 0x0001));
    assert!(p.is_none());
    let info = PortInfo { port_name: "/dev/ttyS0".to_string(), port_type: PortKind::Pci };
    let q: Option<SerialMTKPort<u32>> = SerialMTKPort::from_port_info(info);
    assert!(q.is_none());
}

#[test]
fn open_twice_keeps_one_handle() {
    let calls = Cell::new(0u32);
    let mut p: SerialMTKPort<u32> =
        SerialMTKPort::new(usb("/dev/ttyACM0", 0x0E8D, 0x2000), 921_600, ConnectionType::Preloader);
    let connect = |name: String, baud: u32| {
        assert_eq!(name, "/dev/ttyACM0");
        assert_eq!(baud, 921_600);
        calls.set(calls.get() + 1);
        Ok(7u32 + calls.get())
    };
    assert_eq!(p.open(connect), Ok(()));
    let connect2 = |_: String, _: u32| {
        calls.set(calls.get() + 1);
        Ok(100u32)
    };
    assert_eq!(p.open(connect2), Ok(()));
    assert_eq!(calls.get(), 1);
    assert!(p.is_open());
    assert_eq!(p.stream_mut().map(|h| *h), Ok(8));
}

#[test]
fn open_failure_leaves_port_closed() {
    let mut p: SerialMTKPort<u32> =
        SerialMTKPort::new(usb("/dev/ttyACM0", 0x0E8D, 0x0003), 115_200, ConnectionType::Brom);
    let r = p.open(|_: String, _: u32| Err("no such device".to_string()));
    assert_eq!(r, Err(Error::Io("no such device".to_string())));
    assert!(!p.is_open());
    assert_eq!(p.check_open(), Err(Error::ConnectionNotOpen));
}

#[test]
fn closed_port_refuses_io() {
    let mut p: SerialMTKPort<u32> =
        SerialMTKPort::new(usb("/dev/ttyACM0", 0x0E8D, 0x0003), 115_200, ConnectionType::Brom);
    assert_eq!(p.open(|_: String, _: u32| Ok(1u32)), Ok(()));
    assert_eq!(p.check_open(), Ok(()));
    p.close();
    assert!(!p.is_open());
    assert_eq!(p.check_open(), Err(Error::ConnectionNotOpen));
    assert!(matches!(p.stream_mut(), Err(Error::ConnectionNotOpen)));
    p.close();
    assert!(!p.is_open());
}

#[test]
fn find_device_none_when_nothing_classifies() {
    let ports = vec![
        usb("/dev/ttyUSB0", 0x1234, 0x0001),
        PortInfo { port_name: "/dev/ttyS0".to_string(), port_type: PortKind::Unknown },
    ];
    let r: Option<SerialMTKPort<u32>> = find_device(ports);
    assert!(r.is_none());
    let empty: Option<SerialMTKPort<u32>> = find_device(Vec::new());
    assert!(empty.is_none());
}

#[test]
fn find_device_takes_first_classified() {
    let ports = vec![
        usb("/dev/ttyUSB0", 0x1234, 0x0001),
        PortInfo { port_name: "/dev/ttyS0".to_string(), port_type: PortKind::Bluetooth },
        usb("/dev/ttyACM3", 0x0E8D, 0x2001),
        usb("/dev/ttyACM4", 0x0E8D, 0x0003),
    ];
    let r: SerialMTKPort<u32> = find_device(ports).unwrap();
    assert_eq!(r.get_port_name(), "/dev/ttyACM3");
    assert_eq!(r.get_connection_type(), ConnectionType::Da);
    assert_eq!(r.get_baudrate(), 921_600);
    assert!(!r.is_open());
}
