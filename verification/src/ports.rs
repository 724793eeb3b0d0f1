//! The serial ports of the machine: how they are listed, and how one is chosen.

use vstd::prelude::*;
use vstd::string::*;

use crate::text::{hex4, hex4_string, join};

verus! {

/// What is known of a USB port.
#[derive(Debug, Clone)]
pub struct UsbPortInfo {
    pub vid: u16,
    pub pid: u16,
    pub serial_number: Option<String>,
    pub manufacturer: Option<String>,
    pub product: Option<String>,
}

/// How a port is attached.
#[derive(Debug, Clone)]
pub enum PortType {
    Usb(UsbPortInfo),
    Pci,
    Bluetooth,
    Unknown,
}

/// A serial port.
#[derive(Debug, Clone)]
pub struct PortInfo {
    pub name: String,
    pub kind: PortType,
}

/// There is no port to choose.
#[derive(Debug, Clone, Copy, PartialEq, Eq, Structural)]
pub struct NoPorts;

impl NoPorts {
    /// The error's text.
    pub fn text(&self) -> (text: String)
        ensures
            text@ == "No serial ports found"@,
    {
        "No serial ports found".to_owned()
    }
}

/// A text, or `Unknown` where there is none.
pub open spec fn or_unknown(text: Option<String>) -> Seq<char> {
    match text {
        Some(text) => text@,
        None => "Unknown"@,
    }
}

/// A text, or `Unknown` where there is none.
fn text_or_unknown(text: &Option<String>) -> (r: &str)
    ensures
        r@ == or_unknown(*text),
{
    match text {
        Some(text) => text.as_str(),
        None => "Unknown",
    }
}

/// How a port is named in a choice of ports.
pub open spec fn port_label(port: PortInfo) -> Seq<char> {
    match port.kind {
        PortType::Usb(info) => port.name@ + " - "@ + or_unknown(info.product) + " ["@ + or_unknown(
            info.manufacturer,
        ) + "]"@,
        PortType::Bluetooth => port.name@ + " - Bluetooth"@,
        PortType::Pci => port.name@ + " - PCI"@,
        PortType::Unknown => port.name@,
    }
}

/// The name of a port for a choice of ports.
fn label(port: &PortInfo) -> (text: String)
    ensures
        text@ == port_label(*port),
{
    match &port.kind {
        PortType::Usb(info) => {
            let mut text = join(port.name.as_str(), " - ");
            text.append(text_or_unknown(&info.product));
            text.append(" [");
            text.append(text_or_unknown(&info.manufacturer));
            text.append("]");
            text
        },
        PortType::Bluetooth => join(port.name.as_str(), " - Bluetooth"),
        PortType::Pci => join(port.name.as_str(), " - PCI"),
        PortType::Unknown => port.name.clone(),
    }
}

/// The ports to choose from, as labels in their order; an error if there are none.
pub fn choices(ports: &Vec<PortInfo>) -> (r: Result<Vec<String>, NoPorts>)
    ensures
        r is Err <==> ports@.len() == 0,
        r matches Ok(labels) ==> labels@.len() == ports@.len() && forall|i: int|
            0 <= i < ports@.len() ==> (#[trigger] labels@[i])@ == port_label(ports@[i]),
{
    if ports.len() == 0 {
        return Err(NoPorts);
    }
    let mut labels: Vec<String> = Vec::new();
    let mut i: usize = 0;
    while i < ports.len()
        invariant
            i <= ports@.len(),
            labels@.len() == i,
            forall|j: int| 0 <= j < i ==> (#[trigger] labels@[j])@ == port_label(ports@[j]),
        decreases ports@.len() - i,
    {
        labels.push(label(&ports[i]));
        i = i + 1;
    }
    Ok(labels)
}

/// The device path of the port that was chosen.
pub fn chosen(ports: &Vec<PortInfo>, selection: usize) -> (name: String)
    requires
        selection < ports@.len(),
    ensures
        name@ == ports@[selection as int].name@,
{
    ports[selection].name.clone()
}

/// How a piece of the listing is painted.
#[derive(Debug, Clone, Copy, PartialEq, Eq, Structural)]
pub enum Paint {
    Plain,
    Bold,
    Dimmed,
    Yellow,
    Green,
    Blue,
    Magenta,
    BoldCyan,
    BoldRed,
}

/// A piece of a line of the listing.
#[derive(Debug, Clone)]
pub struct Piece {
    pub text: String,
    pub paint: Paint,
}

/// Whether pieces are some texts, painted in some way.
pub open spec fn pieces_are(pieces: Seq<Piece>, line: Seq<(Seq<char>, Paint)>) -> bool {
    &&& pieces.len() == line.len()
    &&& forall|i: int|
        0 <= i < pieces.len() ==> (#[trigger] pieces[i]).text@ == line[i].0 && pieces[i].paint
            == line[i].1
}

/// Whether lines are made of some texts, painted in some way.
pub open spec fn lines_are(lines: Seq<Vec<Piece>>, listing: Seq<Seq<(Seq<char>, Paint)>>) -> bool {
    &&& lines.len() == listing.len()
    &&& forall|i: int| 0 <= i < lines.len() ==> pieces_are((#[trigger] lines[i])@, listing[i])
}

/// A line of one piece.
pub open spec fn single(text: Seq<char>, paint: Paint) -> Seq<(Seq<char>, Paint)> {
    seq![(text, paint)]
}

/// A line about a port: what it is about, and what is known.
pub open spec fn detail(name: Seq<char>, text: Seq<char>, paint: Paint) -> Seq<(Seq<char>, Paint)> {
    seq![("    "@, Paint::Plain), (name, Paint::Dimmed), (": "@, Paint::Plain), (text, paint)]
}

/// A line about a port, where something is known.
pub open spec fn detail_if(name: Seq<char>, text: Option<String>, paint: Paint) -> Seq<
    Seq<(Seq<char>, Paint)>,
> {
    match text {
        Some(text) => seq![detail(name, text@, paint)],
        None => seq![],
    }
}

/// Vendor and product number.
pub open spec fn usb_numbers(info: UsbPortInfo) -> Seq<char> {
    hex4(info.vid) + ":"@ + hex4(info.pid)
}

/// What is listed of a port: its name, and below it what is known.
pub open spec fn port_lines(port: PortInfo) -> Seq<Seq<(Seq<char>, Paint)>> {
    seq![seq![("  "@, Paint::Plain), (port.name@, Paint::BoldCyan)]] + (match port.kind {
        PortType::Usb(info) => detail_if("Manufacturer"@, info.manufacturer, Paint::Plain)
            + detail_if("Product"@, info.product, Paint::Green) + detail_if(
            "Serial"@,
            info.serial_number,
            Paint::Plain,
        ) + seq![detail("VID:PID"@, usb_numbers(info), Paint::Yellow)],
        PortType::Bluetooth => seq![detail("Type"@, "Bluetooth"@, Paint::Blue)],
        PortType::Pci => seq![detail("Type"@, "PCI"@, Paint::Magenta)],
        PortType::Unknown => seq![detail("Type"@, "Unknown"@, Paint::Dimmed)],
    })
}

/// What is listed of some ports, one behind the other.
pub open spec fn ports_lines(ports: Seq<PortInfo>) -> Seq<Seq<(Seq<char>, Paint)>>
    decreases ports.len(),
{
    if ports.len() == 0 {
        seq![]
    } else {
        ports_lines(ports.drop_last()) + port_lines(ports.last())
    }
}

/// The listing: a heading and the ports, or that there are none.
pub open spec fn listing_of(ports: Seq<PortInfo>) -> Seq<Seq<(Seq<char>, Paint)>> {
    if ports.len() == 0 {
        seq![single("No serial ports found."@, Paint::Yellow)]
    } else {
        seq![single("Available serial ports:"@, Paint::Bold)] + ports_lines(ports)
    }
}

/// A piece.
fn piece(text: &str, paint: Paint) -> (p: Piece)
    ensures
        p.text@ == text@,
        p.paint == paint,
{
    Piece { text: text.to_owned(), paint }
}

/// A line of one piece.
fn single_line(text: &str, paint: Paint) -> (line: Vec<Piece>)
    ensures
        pieces_are(line@, single(text@, paint)),
{
    vec![piece(text, paint)]
}

/// A line about a port.
fn detail_line(name: &str, text: &str, paint: Paint) -> (line: Vec<Piece>)
    ensures
        pieces_are(line@, detail(name@, text@, paint)),
{
    vec![
        piece("    ", Paint::Plain),
        piece(name, Paint::Dimmed),
        piece(": ", Paint::Plain),
        piece(text, paint),
    ]
}

/// Adds a line to a listing.
fn add_line(
    lines: &mut Vec<Vec<Piece>>,
    line: Vec<Piece>,
    listing: Ghost<Seq<Seq<(Seq<char>, Paint)>>>,
    last: Ghost<Seq<(Seq<char>, Paint)>>,
)
    requires
        lines_are(old(lines)@, listing@),
        pieces_are(line@, last@),
    ensures
        lines_are(final(lines)@, listing@ + seq![last@]),
{
    lines.push(line);
}

/// Adds a line about a port to a listing, where something is known.
fn add_detail(
    lines: &mut Vec<Vec<Piece>>,
    name: &str,
    text: &Option<String>,
    paint: Paint,
    listing: Ghost<Seq<Seq<(Seq<char>, Paint)>>>,
)
    requires
        lines_are(old(lines)@, listing@),
    ensures
        lines_are(final(lines)@, listing@ + detail_if(name@, *text, paint)),
{
    match text {
        Some(text) => {
            add_line(
                lines,
                detail_line(name, text.as_str(), paint),
                listing,
                Ghost(detail(name@, text@, paint)),
            );
        },
        None => {
            assert(listing@ + Seq::<Seq<(Seq<char>, Paint)>>::empty() =~= listing@);
        },
    }
}

/// Adds what is listed of a port.
fn add_port(
    lines: &mut Vec<Vec<Piece>>,
    port: &PortInfo,
    listing: Ghost<Seq<Seq<(Seq<char>, Paint)>>>,
)
    requires
        lines_are(old(lines)@, listing@),
    ensures
        lines_are(final(lines)@, listing@ + port_lines(*port)),
{
    let ghost name = seq![("  "@, Paint::Plain), (port.name@, Paint::BoldCyan)];
    let line = vec![piece("  ", Paint::Plain), piece(port.name.as_str(), Paint::BoldCyan)];
    add_line(lines, line, listing, Ghost(name));
    let ghost named = listing@ + seq![name];
    match &port.kind {
        PortType::Usb(info) => {
            let ghost a = detail_if("Manufacturer"@, info.manufacturer, Paint::Plain);
            let ghost b = detail_if("Product"@, info.product, Paint::Green);
            let ghost c = detail_if("Serial"@, info.serial_number, Paint::Plain);
            let ghost d = detail("VID:PID"@, usb_numbers(*info), Paint::Yellow);
            add_detail(lines, "Manufacturer", &info.manufacturer, Paint::Plain, Ghost(named));
            add_detail(lines, "Product", &info.product, Paint::Green, Ghost(named + a));
            add_detail(lines, "Serial", &info.serial_number, Paint::Plain, Ghost(named + a + b));
            let mut numbers = join(hex4_string(info.vid).as_str(), ":");
            numbers.append(hex4_string(info.pid).as_str());
            add_line(
                lines,
                detail_line("VID:PID", numbers.as_str(), Paint::Yellow),
                Ghost(named + a + b + c),
                Ghost(d),
            );
            assert(named + a + b + c + seq![d] =~= listing@ + port_lines(*port));
        },
        PortType::Bluetooth => {
            let ghost d = detail("Type"@, "Bluetooth"@, Paint::Blue);
            let line = detail_line("Type", "Bluetooth", Paint::Blue);
            add_line(lines, line, Ghost(named), Ghost(d));
            assert(named + seq![d] =~= listing@ + port_lines(*port));
        },
        PortType::Pci => {
            let ghost d = detail("Type"@, "PCI"@, Paint::Magenta);
            let line = detail_line("Type", "PCI", Paint::Magenta);
            add_line(lines, line, Ghost(named), Ghost(d));
            assert(named + seq![d] =~= listing@ + port_lines(*port));
        },
        PortType::Unknown => {
            let ghost d = detail("Type"@, "Unknown"@, Paint::Dimmed);
            let line = detail_line("Type", "Unknown", Paint::Dimmed);
            add_line(lines, line, Ghost(named), Ghost(d));
            assert(named + seq![d] =~= listing@ + port_lines(*port));
        },
    }
}

/// The listing of the ports.
pub fn listing(ports: &Vec<PortInfo>) -> (lines: Vec<Vec<Piece>>)
    ensures
        lines_are(lines@, listing_of(ports@)),
{
    let mut lines: Vec<Vec<Piece>> = Vec::new();
    if ports.len() == 0 {
        lines.push(single_line("No serial ports found.", Paint::Yellow));
        return lines;
    }
    let ghost heading = seq![single("Available serial ports:"@, Paint::Bold)];
    lines.push(single_line("Available serial ports:", Paint::Bold));
    assert(heading + ports_lines(ports@.take(0)) =~= heading);
    let mut i: usize = 0;
    while i < ports.len()
        invariant
            i <= ports@.len(),
            lines_are(lines@, heading + ports_lines(ports@.take(i as int))),
        decreases ports@.len() - i,
    {
        let ghost before = ports_lines(ports@.take(i as int));
        add_port(&mut lines, &ports[i], Ghost(heading + before));
        assert(ports@.take(i + 1).drop_last() =~= ports@.take(i as int));
        assert(heading + before + port_lines(ports@[i as int]) =~= heading + (before + port_lines(
            ports@[i as int],
        )));
        i = i + 1;
    }
    assert(ports@.take(i as int) =~= ports@);
    lines
}

/// The line that tells why the ports could not be listed.
pub fn listing_failed(error: &str) -> (line: Vec<Piece>)
    ensures
        pieces_are(
            line@,
            seq![
                ("Error listing ports"@, Paint::BoldRed),
                (": "@, Paint::Plain),
                (error@, Paint::Plain),
            ],
        ),
{
    vec![
        piece("Error listing ports", Paint::BoldRed),
        piece(": ", Paint::Plain),
        piece(error, Paint::Plain),
    ]
}

/// In a choice of ports each is named by its path; behind it stand, for a USB port, its
/// product and its maker in brackets, each `Unknown` where it is not known, and else how
/// the port is attached.
pub proof fn law_how_ports_are_labelled(port: PortInfo)
    ensures
        ({
            let label = port_label(port);
            &&& port.name@.is_prefix_of(label)
            &&& port.kind is Unknown ==> label == port.name@
            &&& port.kind is Pci ==> label == port.name@ + " - PCI"@
            &&& port.kind is Bluetooth ==> label == port.name@ + " - Bluetooth"@
            &&& port.kind matches PortType::Usb(info) ==> ({
                let product = if info.product is Some {
                    info.product->0@
                } else {
                    "Unknown"@
                };
                let maker = if info.manufacturer is Some {
                    info.manufacturer->0@
                } else {
                    "Unknown"@
                };
                label == port.name@ + " - "@ + product + " ["@ + maker + "]"@
            })
        }),
{
}

/// The lines of each port stand in the listing, in the order of the ports, below a
/// heading.
pub proof fn law_every_port_is_listed(ports: Seq<PortInfo>, i: int)
    requires
        0 <= i < ports.len(),
    ensures
        ({
            let lines = port_lines(ports[i]);
            let at = 1 + ports_lines(ports.take(i)).len();
            &&& at + lines.len() <= listing_of(ports).len()
            &&& lines == listing_of(ports).subrange(at as int, (at + lines.len()) as int)
        }),
        listing_of(ports)[0] == seq![("Available serial ports:"@, Paint::Bold)],
        listing_of(ports).len() == 1 + ports_lines(ports).len(),
        ports_lines(ports.take(i + 1)).len() == ports_lines(ports.take(i)).len() + port_lines(
            ports[i],
        ).len(),
{
    let lines = port_lines(ports[i]);
    let at = 1 + ports_lines(ports.take(i)).len();
    lemma_ports_lines_take(ports, i + 1);
    assert(ports.take(i + 1).drop_last() =~= ports.take(i));
    assert(ports_lines(ports.take(i + 1)) == ports_lines(ports.take(i)) + lines);
    let first = ports_lines(ports.take(i + 1));
    let all = ports_lines(ports);
    assert forall|j: int| 0 <= j < lines.len() implies listing_of(ports)[at + j] == lines[j] by {
        assert(listing_of(ports)[at + j] == all[at - 1 + j]);
        assert(first[at - 1 + j] == lines[j]);
        assert(first[at - 1 + j] == all[at - 1 + j]);
    }
    assert(lines =~= listing_of(ports).subrange(at as int, (at + lines.len()) as int));
}

/// The lines of the first ports are the first lines.
proof fn lemma_ports_lines_take(ports: Seq<PortInfo>, n: int)
    requires
        0 <= n <= ports.len(),
    ensures
        ports_lines(ports.take(n)).is_prefix_of(ports_lines(ports)),
    decreases ports.len(),
{
    if n == ports.len() {
        assert(ports.take(n) =~= ports);
    } else {
        lemma_ports_lines_take(ports.drop_last(), n);
        assert(ports.drop_last().take(n) =~= ports.take(n));
    }
}

/// What is listed of a port: its path, and below it a line for each thing that is known.
/// Of a USB port those are its maker, its product and its serial number, where they are
/// known, and its vendor and product numbers; of another port how it is attached.
pub proof fn law_what_is_listed_of_a_port(port: PortInfo)
    ensures
        ({
            let lines = port_lines(port);
            &&& lines[0] == seq![("  "@, Paint::Plain), (port.name@, Paint::BoldCyan)]
            &&& port.kind is Unknown ==> lines.len() == 2 && lines[1] == detail(
                "Type"@,
                "Unknown"@,
                Paint::Dimmed,
            )
            &&& port.kind is Pci ==> lines.len() == 2 && lines[1] == detail(
                "Type"@,
                "PCI"@,
                Paint::Magenta,
            )
            &&& port.kind is Bluetooth ==> lines.len() == 2 && lines[1] == detail(
                "Type"@,
                "Bluetooth"@,
                Paint::Blue,
            )
            &&& port.kind matches PortType::Usb(info) ==> ({
                let a = if info.manufacturer is Some {
                    1int
                } else {
                    0
                };
                let b = if info.product is Some {
                    1int
                } else {
                    0
                };
                let c = if info.serial_number is Some {
                    1int
                } else {
                    0
                };
                &&& lines.len() == 2 + a + b + c
                &&& info.manufacturer matches Some(text) ==> lines[1] == detail(
                    "Manufacturer"@,
                    text@,
                    Paint::Plain,
                )
                &&& info.product matches Some(text) ==> lines[1 + a] == detail(
                    "Product"@,
                    text@,
                    Paint::Green,
                )
                &&& info.serial_number matches Some(text) ==> lines[1 + a + b] == detail(
                    "Serial"@,
                    text@,
                    Paint::Plain,
                )
                &&& lines[1 + a + b + c] == detail(
                    "VID:PID"@,
                    hex4(info.vid) + ":"@ + hex4(info.pid),
                    Paint::Yellow,
                )
            })
        }),
        forall|name: Seq<char>, text: Seq<char>, paint: Paint| #[trigger]
            detail(name, text, paint) == seq![
                ("    "@, Paint::Plain),
                (name, Paint::Dimmed),
                (": "@, Paint::Plain),
                (text, paint),
            ],
        listing_of(seq![]) == seq![seq![("No serial ports found."@, Paint::Yellow)]],
{
}

} // verus!
