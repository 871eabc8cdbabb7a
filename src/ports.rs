//! Serial ports offered for connection, with a label for display.
use vstd::prelude::*;

verus! {

/// What kind of device a serial port belongs to.
#[derive(Clone, Debug)]
pub enum PortKind {
    /// A USB device, with its product name when it reports one.
    Usb(Option<String>),
    Pci,
    Bluetooth,
    Unknown,
}

/// A serial port and the label shown for it.
#[derive(Clone, Debug)]
pub struct PortInfo {
    pub port: String,
    pub info: String,
}

/// The label of a port of kind `kind`.
pub open spec fn port_label(kind: PortKind) -> Seq<char> {
    match kind {
        PortKind::Usb(Some(product)) => product@,
        PortKind::Usb(None) => "Unknown Product"@,
        PortKind::Pci => "PCI Port"@,
        PortKind::Bluetooth => "Bluetooth Port"@,
        PortKind::Unknown => "串行设备"@,
    }
}

impl PortInfo {
    /// The entry shown for port `port` of kind `kind`: a USB port by its
    /// product name, other kinds by a fixed label.
    pub fn describe(port: String, kind: PortKind) -> (r: PortInfo)
        ensures
            r.port@ == port@,
            r.info@ == port_label(kind),
    {
        let info = match kind {
            PortKind::Usb(Some(product)) => product,
            PortKind::Usb(None) => "Unknown Product".to_owned(),
            PortKind::Pci => "PCI Port".to_owned(),
            PortKind::Bluetooth => "Bluetooth Port".to_owned(),
            PortKind::Unknown => "串行设备".to_owned(),
        };
        PortInfo { port, info }
    }
}

} // verus!
