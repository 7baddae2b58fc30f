//! USB gadget definition: device class, identifiers, strings and
//! configurations.
//!
//! Registering a definition with the kernel's configuration filesystem is
//! left to the surrounding program; this module holds the data and the
//! values that are written.

use vstd::prelude::*;

use crate::lang::Language;

verus! {

/// USB gadget or interface class.
#[derive(Debug, Clone, Copy, PartialEq, Eq, Hash, Structural)]
pub struct Class {
    /// Class code.
    pub class: u8,
    /// Subclass code.
    pub sub_class: u8,
    /// Protocol code.
    pub protocol: u8,
}

impl Class {
    /// Vendor specific class code.
    pub const VENDOR_SPECIFIC: u8 = 0xff;

    /// Creates a new USB device or interface class.
    pub fn new(class: u8, sub_class: u8, protocol: u8) -> (r: Self)
        ensures
            r == (Class { class, sub_class, protocol }),
    {
        Self { class, sub_class, protocol }
    }

    /// Creates a new USB device or interface class with vendor-specific
    /// class code.
    pub fn vendor_specific(sub_class: u8, protocol: u8) -> (r: Self)
        ensures
            r == (Class { class: 0xff, sub_class, protocol }),
    {
        Self::new(0xff, sub_class, protocol)
    }

    /// Indicates that class information should be determined from the
    /// interface descriptors in the device.
    ///
    /// Can only be used as device class.
    pub fn interface_specific() -> (r: Self)
        ensures
            r == (Class { class: 0, sub_class: 0, protocol: 0 }),
    {
        Self::new(0, 0, 0)
    }
}

/// USB gadget id.
#[derive(Debug, Clone, Copy, PartialEq, Eq, Hash, Structural)]
pub struct Id {
    /// Vendor id.
    pub vendor: u16,
    /// Product id.
    pub product: u16,
}

impl Id {
    /// Creates a new USB device id.
    pub fn new(vendor: u16, product: u16) -> (r: Self)
        ensures
            r == (Id { vendor, product }),
    {
        Self { vendor, product }
    }
}

/// USB gadget description strings.
#[derive(Debug, Clone, PartialEq, Eq)]
pub struct Strings {
    /// Manufacturer name.
    pub manufacturer: String,
    /// Product name.
    pub product: String,
    /// Serial number.
    pub serial_number: String,
}

impl Strings {
    /// Creates new USB device strings.
    pub fn new(manufacturer: &str, product: &str, serial_number: &str) -> (r: Self)
        ensures
            r.manufacturer@ == manufacturer@,
            r.product@ == product@,
            r.serial_number@ == serial_number@,
    {
        Self {
            manufacturer: manufacturer.to_owned(),
            product: product.to_owned(),
            serial_number: serial_number.to_owned(),
        }
    }
}

/// USB gadget operating system descriptor.
#[derive(Debug, Clone, PartialEq, Eq)]
pub struct OsDescriptor {
    /// Vendor code for requests.
    pub vendor_code: u8,
    /// Signature.
    pub qw_sign: String,
    /// Index of the configuration to be reported at index 0.
    ///
    /// Hosts which expect the OS descriptors ask only for configurations
    /// at index 0, but Linux-based USB devices can provide more than one
    /// configuration.
    pub config: usize,
}

impl OsDescriptor {
    /// Creates a new instance.
    pub fn new(vendor_code: u8, qw_sign: String) -> (r: Self)
        ensures
            r.vendor_code == vendor_code,
            r.qw_sign@ == qw_sign@,
            r.config == 0,
    {
        Self { vendor_code, qw_sign, config: 0 }
    }

    /// The Microsoft OS descriptor.
    ///
    /// Uses vendor code 0xf0 for requests.
    pub fn microsoft() -> (r: Self)
        ensures
            r.vendor_code == 0xf0,
            r.qw_sign@ == "MSFT100"@,
            r.config == 0,
    {
        Self { vendor_code: 0xf0, qw_sign: String::from_str("MSFT100"), config: 0 }
    }
}

/// WebUSB version.
#[derive(Debug, Clone, Copy, PartialEq, Eq, Hash, Structural)]
pub enum WebUsbVersion {
    /// Version 1.0
    V10,
    /// Other version in BCD format.
    Other(u16),
}

impl WebUsbVersion {
    /// The version in BCD format.
    pub open spec fn spec_code(self) -> u16 {
        match self {
            WebUsbVersion::V10 => 0x0100,
            WebUsbVersion::Other(ver) => ver,
        }
    }

    /// The version in BCD format.
    pub fn code(self) -> (r: u16)
        ensures
            r == self.spec_code(),
    {
        match self {
            WebUsbVersion::V10 => 0x0100,
            WebUsbVersion::Other(ver) => ver,
        }
    }
}

impl Default for WebUsbVersion {
    /// Version 1.0.
    fn default() -> (r: Self)
        ensures
            r == WebUsbVersion::V10,
    {
        WebUsbVersion::V10
    }
}

/// USB gadget WebUSB descriptor.
#[derive(Debug, Clone, PartialEq, Eq)]
pub struct WebUsb {
    /// WebUSB specification version number.
    pub version: WebUsbVersion,
    /// bRequest value used for issuing WebUSB requests.
    pub vendor_code: u8,
    /// URL of the device's landing page.
    pub landing_page: String,
}

impl WebUsb {
    /// Creates a new instance.
    pub fn new(vendor_code: u8, landing_page: &str) -> (r: Self)
        ensures
            r.version == WebUsbVersion::V10,
            r.vendor_code == vendor_code,
            r.landing_page@ == landing_page@,
    {
        Self { version: WebUsbVersion::V10, vendor_code, landing_page: landing_page.to_owned() }
    }
}

/// USB version.
#[derive(Debug, Clone, Copy, PartialEq, Eq, Hash, Structural)]
pub enum UsbVersion {
    /// USB 1.1
    V11,
    /// USB 2.0
    V20,
    /// USB 3.0
    V30,
    /// USB 3.1
    V31,
    /// Other version in BCD format.
    Other(u16),
}

impl UsbVersion {
    /// The version in BCD format.
    pub open spec fn spec_code(self) -> u16 {
        match self {
            UsbVersion::V11 => 0x0110,
            UsbVersion::V20 => 0x0200,
            UsbVersion::V30 => 0x0300,
            UsbVersion::V31 => 0x0310,
            UsbVersion::Other(ver) => ver,
        }
    }

    /// The version in BCD format.
    pub fn code(self) -> (r: u16)
        ensures
            r == self.spec_code(),
    {
        match self {
            UsbVersion::V11 => 0x0110,
            UsbVersion::V20 => 0x0200,
            UsbVersion::V30 => 0x0300,
            UsbVersion::V31 => 0x0310,
            UsbVersion::Other(ver) => ver,
        }
    }
}

impl Default for UsbVersion {
    /// USB 2.0.
    fn default() -> (r: Self)
        ensures
            r == UsbVersion::V20,
    {
        UsbVersion::V20
    }
}

/// USB gadget configuration.
///
/// The functions present in a configuration are tracked by the surrounding
/// program, which owns the function handles.
#[derive(Debug, Clone, PartialEq, Eq)]
pub struct Config {
    /// Maximum power in mA.
    pub max_power: u16,
    /// Self powered?
    pub self_powered: bool,
    /// Remote wakeup?
    pub remote_wakeup: bool,
    /// Configuration description string per language.
    pub description: Vec<(Language, String)>,
}

impl Config {
    /// Creates a new USB gadget configuration.
    pub fn new(description: &str) -> (r: Self)
        ensures
            r.max_power == 500,
            !r.self_powered,
            !r.remote_wakeup,
            r.description@.len() == 1,
            r.description@[0].0 == Language::EnglishUnitedStates,
            r.description@[0].1@ == description@,
    {
        let mut desc: Vec<(Language, String)> = Vec::new();
        desc.push((Language::EnglishUnitedStates, description.to_owned()));
        Self { max_power: 500, self_powered: false, remote_wakeup: false, description: desc }
    }

    /// Sets the maximum power in mA.
    pub fn set_max_power_ma(&mut self, ma: u16) -> (r: Result<(), crate::errors::GadgetError>)
        ensures
            r is Ok,
            final(self).max_power == ma,
            final(self).self_powered == old(self).self_powered,
            final(self).remote_wakeup == old(self).remote_wakeup,
            final(self).description == old(self).description,
    {
        self.max_power = ma;
        Ok(())
    }

    /// The `bmAttributes` byte written during registration: bit 7 always
    /// set, bit 6 for self-powered, bit 5 for remote wakeup.
    pub open spec fn spec_attributes(self) -> u8 {
        if self.self_powered && self.remote_wakeup {
            0xe0
        } else if self.self_powered {
            0xc0
        } else if self.remote_wakeup {
            0xa0
        } else {
            0x80
        }
    }

    /// The `bmAttributes` byte written during registration.
    pub fn attributes(&self) -> (r: u8)
        ensures
            r == self.spec_attributes(),
    {
        let mut attributes: u8 = 0x80;
        if self.self_powered {
            attributes = attributes | 0x40;
        }
        if self.remote_wakeup {
            attributes = attributes | 0x20;
        }
        proof {
            assert(0x80u8 | 0x40u8 == 0xc0u8) by (bit_vector);
            assert(0x80u8 | 0x20u8 == 0xa0u8) by (bit_vector);
            assert(0xc0u8 | 0x20u8 == 0xe0u8) by (bit_vector);
        }
        attributes
    }
}

/// USB gadget definition.
#[derive(Debug, Clone, PartialEq, Eq)]
pub struct Gadget {
    /// USB device class.
    pub device_class: Class,
    /// USB device id.
    pub id: Id,
    /// USB device strings per language.
    pub strings: Vec<(Language, Strings)>,
    /// Maximum endpoint 0 packet size.
    pub max_packet_size0: u8,
    /// Device release number in BCD format.
    ///
    /// No hexadecimal digit must exceed 9.
    pub device_release: u16,
    /// USB specification version.
    pub usb_version: UsbVersion,
    /// Maximum speed supported by driver.
    pub max_speed: Option<crate::Speed>,
    /// OS descriptor extension.
    pub os_descriptor: Option<OsDescriptor>,
    /// WebUSB extension.
    pub web_usb: Option<WebUsb>,
    /// USB device configurations.
    pub configs: Vec<Config>,
}

impl Gadget {
    /// Creates a new USB gadget definition.
    pub fn new(device_class: Class, id: Id, strings: Strings) -> (r: Self)
        ensures
            r.device_class == device_class,
            r.id == id,
            r.strings@.len() == 1,
            r.strings@[0].0 == Language::EnglishUnitedStates,
            r.strings@[0].1 == strings,
            r.max_packet_size0 == 64,
            r.device_release == 0,
            r.usb_version == UsbVersion::V20,
            r.max_speed is None,
            r.os_descriptor is None,
            r.web_usb is None,
            r.configs@.len() == 0,
    {
        let mut lang_strings: Vec<(Language, Strings)> = Vec::new();
        lang_strings.push((Language::EnglishUnitedStates, strings));
        Self {
            device_class,
            id,
            strings: lang_strings,
            max_packet_size0: 64,
            device_release: 0x0000,
            usb_version: UsbVersion::V20,
            max_speed: None,
            os_descriptor: None,
            web_usb: None,
            configs: Vec::new(),
        }
    }

    /// Adds a USB device configuration.
    pub fn add_config(&mut self, config: Config)
        ensures
            final(self).configs@ == old(self).configs@.push(config),
            final(self).device_class == old(self).device_class,
            final(self).id == old(self).id,
            final(self).strings == old(self).strings,
            final(self).max_packet_size0 == old(self).max_packet_size0,
            final(self).device_release == old(self).device_release,
            final(self).usb_version == old(self).usb_version,
            final(self).max_speed == old(self).max_speed,
            final(self).os_descriptor == old(self).os_descriptor,
            final(self).web_usb == old(self).web_usb,
    {
        self.configs.push(config);
    }

    /// Adds a USB device configuration.
    #[must_use]
    pub fn with_config(self, config: Config) -> (r: Self)
        ensures
            r.configs@ == self.configs@.push(config),
            r.device_class == self.device_class,
            r.id == self.id,
            r.strings == self.strings,
            r.max_packet_size0 == self.max_packet_size0,
            r.device_release == self.device_release,
            r.usb_version == self.usb_version,
            r.max_speed == self.max_speed,
            r.os_descriptor == self.os_descriptor,
            r.web_usb == self.web_usb,
    {
        let mut this = self;
        this.add_config(config);
        this
    }

    /// Sets the OS descriptor.
    #[must_use]
    pub fn with_os_descriptor(self, os_descriptor: OsDescriptor) -> (r: Self)
        ensures
            r == (Gadget { os_descriptor: Some(os_descriptor), ..self }),
    {
        let mut this = self;
        this.os_descriptor = Some(os_descriptor);
        this
    }

    /// Sets the WebUSB extension.
    #[must_use]
    pub fn with_web_usb(self, web_usb: WebUsb) -> (r: Self)
        ensures
            r == (Gadget { web_usb: Some(web_usb), ..self }),
    {
        let mut this = self;
        this.web_usb = Some(web_usb);
        this
    }
}

} // verus!
