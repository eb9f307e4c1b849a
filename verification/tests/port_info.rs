use gphoto::error::GP_OK;
use gphoto::{Abilities, Camera, Context, DeviceType, DriverStatus, PortType};

fn open() -> (Context, Camera) {
    let mut ctx = Context::new(0x1000).unwrap();
    let mut cam = Camera::allocate(&mut ctx, GP_OK, 0x2000).result.unwrap();
    assert_eq!(cam.autodetect(&mut ctx, GP_OK).result, Ok(()));
    (ctx, cam)
}

#[test]
fn port_type_of_each_native_code() {
    let (_ctx, cam) = open();
    let cases = [
        (1, PortType::Serial),
        (4, PortType::USB),
        (8, PortType::Disk),
        (16, PortType::PTPIP),
        (32, PortType::Direct),
        (64, PortType::SCSI),
        (0, PortType::Other),
    ];
    for (code, expected) in cases {
        let port = cam.port(GP_OK, code, b"n\0".to_vec(), b"p\0".to_vec());
        assert_eq!(port.port_type(), expected, "code {}", code);
    }
}

#[test]
fn unknown_port_codes_are_other() {
    let (_ctx, cam) = open();
    for code in [2, 3, 5, 128, -1, 65, i32::MAX, i32::MIN] {
        let port = gphoto::port::from_libgphoto2(&cam, code, Vec::new(), Vec::new());
        assert_eq!(port.port_type(), PortType::Other, "code {}", code);
    }
}

#[test]
fn port_name_and_path() {
    let (_ctx, cam) = open();
    let port = cam.port(GP_OK, 4, b"Universal Serial Bus\0".to_vec(), b"usb:020,007\0".to_vec());
    assert_eq!(port.port_type(), PortType::USB);
    assert_eq!(port.name(), "Universal Serial Bus");
    assert_eq!(port.path(), "usb:020,007");
}

#[test]
fn port_text_is_decoded_lossily() {
    let (_ctx, cam) = open();
    let port = cam.port(GP_OK, 1, vec![b'S', 0xfe, 0], b"serial:/dev/ttyS0".to_vec());
    assert_eq!(port.name(), "S\u{fffd}");
    assert_eq!(port.path(), "serial:/dev/ttyS0");
}

#[test]
fn abilities_are_handed_through() {
    let (_ctx, cam) = open();
    let reported = Abilities {
        device_type: DeviceType::Camera,
        driver_status: DriverStatus::Production,
        camera_operations: 0b1_0001,
        file_operations: 0b1010,
        folder_operations: 0b0110,
    };
    assert_eq!(cam.abilities(GP_OK, reported), reported);
}
