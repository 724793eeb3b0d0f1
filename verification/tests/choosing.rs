use srsly::ports::{
    choices, chosen, listing, listing_failed, Paint, Piece, PortInfo, PortType, UsbPortInfo,
};

fn usb(product: Option<&str>, manufacturer: Option<&str>, serial: Option<&str>) -> PortInfo {
    PortInfo {
        name: "/dev/ttyUSB0".to_string(),
        kind: PortType::Usb(UsbPortInfo {
            vid: 0x0403,
            pid: 0xabcd,
            serial_number: serial.map(|s| s.to_string()),
            manufacturer: manufacturer.map(|s| s.to_string()),
            product: product.map(|s| s.to_string()),
        }),
    }
}

fn other(name: &str, kind: PortType) -> PortInfo {
    PortInfo { name: name.to_string(), kind }
}

fn text(line: &[Piece]) -> String {
    line.iter().map(|p| p.text.as_str()).collect::<Vec<&str>>().concat()
}

fn paints(line: &[Piece]) -> Vec<Paint> {
    line.iter().map(|p| p.paint).collect()
}

#[test]
fn ports_have_labels() {
    let ports = vec![
        usb(Some("FT232"), Some("FTDI"), None),
        usb(None, None, None),
        other("/dev/rfcomm0", PortType::Bluetooth),
        other("/dev/ttyS0", PortType::Pci),
        other("/dev/ttyX", PortType::Unknown),
    ];
    assert_eq!(
        choices(&ports).unwrap(),
        vec![
            "/dev/ttyUSB0 - FT232 [FTDI]",
            "/dev/ttyUSB0 - Unknown [Unknown]",
            "/dev/rfcomm0 - Bluetooth",
            "/dev/ttyS0 - PCI",
            "/dev/ttyX",
        ]
    );
    assert_eq!(chosen(&ports, 3), "/dev/ttyS0");
}

#[test]
fn there_must_be_a_port_to_choose() {
    let none = choices(&Vec::new()).unwrap_err();
    assert_eq!(none.text(), "No serial ports found");
}

#[test]
fn ports_are_listed() {
    let ports = vec![
        usb(Some("FT232"), Some("FTDI"), Some("A1")),
        usb(None, None, None),
        other("/dev/rfcomm0", PortType::Bluetooth),
        other("/dev/ttyS0", PortType::Pci),
        other("/dev/ttyX", PortType::Unknown),
    ];
    let lines = listing(&ports);
    let texts: Vec<String> = lines.iter().map(|l| text(l)).collect();
    assert_eq!(
        texts,
        vec![
            "Available serial ports:",
            "  /dev/ttyUSB0",
            "    Manufacturer: FTDI",
            "    Product: FT232",
            "    Serial: A1",
            "    VID:PID: 0403:abcd",
            "  /dev/ttyUSB0",
            "    VID:PID: 0403:abcd",
            "  /dev/rfcomm0",
            "    Type: Bluetooth",
            "  /dev/ttyS0",
            "    Type: PCI",
            "  /dev/ttyX",
            "    Type: Unknown",
        ]
    );
    assert_eq!(paints(&lines[0]), vec![Paint::Bold]);
    assert_eq!(paints(&lines[1]), vec![Paint::Plain, Paint::BoldCyan]);
    let detail = |last| vec![Paint::Plain, Paint::Dimmed, Paint::Plain, last];
    assert_eq!(paints(&lines[2]), detail(Paint::Plain));
    assert_eq!(paints(&lines[3]), detail(Paint::Green));
    assert_eq!(paints(&lines[4]), detail(Paint::Plain));
    assert_eq!(paints(&lines[5]), detail(Paint::Yellow));
    assert_eq!(paints(&lines[9]), detail(Paint::Blue));
    assert_eq!(paints(&lines[11]), detail(Paint::Magenta));
    assert_eq!(paints(&lines[13]), detail(Paint::Dimmed));
}

#[test]
fn an_empty_listing_says_so() {
    let lines = listing(&Vec::new());
    assert_eq!(lines.len(), 1);
    assert_eq!(text(&lines[0]), "No serial ports found.");
    assert_eq!(paints(&lines[0]), vec![Paint::Yellow]);
}

#[test]
fn a_failed_listing_tells_why() {
    let line = listing_failed("denied");
    assert_eq!(text(&line), "Error listing ports: denied");
    assert_eq!(paints(&line), vec![Paint::BoldRed, Paint::Plain, Paint::Plain]);
}
