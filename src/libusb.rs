use vstd::prelude::*;

verus! {

/// A transport context, named by the address the transport gave it.
#[derive(Clone, Copy, Debug, PartialEq, Eq, Structural)]
pub struct libusb_context {
    pub addr: usize,
}

/// A transport device record, named by its address.
#[derive(Clone, Copy, Debug, PartialEq, Eq, Structural)]
pub struct libusb_device {
    pub addr: usize,
}

/// An open transport session, named by its address.
#[derive(Clone, Copy, Debug, PartialEq, Eq, Structural)]
pub struct libusb_device_handle {
    pub addr: usize,
}

/// Device and interface class codes.
#[derive(Clone, Copy, Debug, PartialEq, Eq, Structural)]
pub enum libusb_class_code {
    LIBUSB_CLASS_PER_INTERFACE,
    LIBUSB_CLASS_AUDIO,
    LIBUSB_CLASS_COMM,
    LIBUSB_CLASS_HID,
    LIBUSB_CLASS_PHYSICAL,
    LIBUSB_CLASS_PRINTER,
    LIBUSB_CLASS_IMAGE,
    LIBUSB_CLASS_MASS_STORAGE,
    LIBUSB_CLASS_HUB,
    LIBUSB_CLASS_DATA,
    LIBUSB_CLASS_SMART_CARD,
    LIBUSB_CLASS_CONTENT_SECURITY,
    LIBUSB_CLASS_VIDEO,
    LIBUSB_CLASS_PERSONAL_HEALTHCARE,
    LIBUSB_CLASS_DIAGNOSTIC_DEVICE,
    LIBUSB_CLASS_WIRELESS,
    LIBUSB_CLASS_APPLICATION,
    LIBUSB_CLASS_VENDOR_SPEC,
}

pub open spec fn class_code_value(c: libusb_class_code) -> u8 {
    match c {
        libusb_class_code::LIBUSB_CLASS_PER_INTERFACE => 0x00,
        libusb_class_code::LIBUSB_CLASS_AUDIO => 0x01,
        libusb_class_code::LIBUSB_CLASS_COMM => 0x02,
        libusb_class_code::LIBUSB_CLASS_HID => 0x03,
        libusb_class_code::LIBUSB_CLASS_PHYSICAL => 0x05,
        libusb_class_code::LIBUSB_CLASS_PRINTER => 0x07,
        libusb_class_code::LIBUSB_CLASS_IMAGE => 0x06,
        libusb_class_code::LIBUSB_CLASS_MASS_STORAGE => 0x08,
        libusb_class_code::LIBUSB_CLASS_HUB => 0x09,
        libusb_class_code::LIBUSB_CLASS_DATA => 0x0a,
        libusb_class_code::LIBUSB_CLASS_SMART_CARD => 0x0b,
        libusb_class_code::LIBUSB_CLASS_CONTENT_SECURITY => 0x0d,
        libusb_class_code::LIBUSB_CLASS_VIDEO => 0x0e,
        libusb_class_code::LIBUSB_CLASS_PERSONAL_HEALTHCARE => 0x0f,
        libusb_class_code::LIBUSB_CLASS_DIAGNOSTIC_DEVICE => 0xdc,
        libusb_class_code::LIBUSB_CLASS_WIRELESS => 0xe0,
        libusb_class_code::LIBUSB_CLASS_APPLICATION => 0xfe,
        libusb_class_code::LIBUSB_CLASS_VENDOR_SPEC => 0xff,
    }
}

impl libusb_class_code {
    /// The class byte as it appears in descriptors.
    pub fn code(&self) -> (r: u8)
        ensures
            r == class_code_value(*self),
    {
        match self {
            libusb_class_code::LIBUSB_CLASS_PER_INTERFACE => 0x00,
            libusb_class_code::LIBUSB_CLASS_AUDIO => 0x01,
            libusb_class_code::LIBUSB_CLASS_COMM => 0x02,
            libusb_class_code::LIBUSB_CLASS_HID => 0x03,
            libusb_class_code::LIBUSB_CLASS_PHYSICAL => 0x05,
            libusb_class_code::LIBUSB_CLASS_PRINTER => 0x07,
            libusb_class_code::LIBUSB_CLASS_IMAGE => 0x06,
            libusb_class_code::LIBUSB_CLASS_MASS_STORAGE => 0x08,
            libusb_class_code::LIBUSB_CLASS_HUB => 0x09,
            libusb_class_code::LIBUSB_CLASS_DATA => 0x0a,
            libusb_class_code::LIBUSB_CLASS_SMART_CARD => 0x0b,
            libusb_class_code::LIBUSB_CLASS_CONTENT_SECURITY => 0x0d,
            libusb_class_code::LIBUSB_CLASS_VIDEO => 0x0e,
            libusb_class_code::LIBUSB_CLASS_PERSONAL_HEALTHCARE => 0x0f,
            libusb_class_code::LIBUSB_CLASS_DIAGNOSTIC_DEVICE => 0xdc,
            libusb_class_code::LIBUSB_CLASS_WIRELESS => 0xe0,
            libusb_class_code::LIBUSB_CLASS_APPLICATION => 0xfe,
            libusb_class_code::LIBUSB_CLASS_VENDOR_SPEC => 0xff,
        }
    }
}

/// Descriptor types.
#[derive(Clone, Copy, Debug, PartialEq, Eq, Structural)]
pub enum libusb_descriptor_type {
    LIBUSB_DT_DEVICE,
    LIBUSB_DT_CONFIG,
    LIBUSB_DT_STRING,
    LIBUSB_DT_INTERFACE,
    LIBUSB_DT_ENDPOINT,
    LIBUSB_DT_BOS,
    LIBUSB_DT_DEVICE_CAPABILITY,
    LIBUSB_DT_HID,
    LIBUSB_DT_REPORT,
    LIBUSB_DT_PHYSICAL,
    LIBUSB_DT_HUB,
    LIBUSB_DT_SUPERSPEED_HUB,
    LIBUSB_DT_SS_ENDPOINT_COMPANION,
}

pub open spec fn descriptor_type_value(d: libusb_descriptor_type) -> u8 {
    match d {
        libusb_descriptor_type::LIBUSB_DT_DEVICE => 0x01,
        libusb_descriptor_type::LIBUSB_DT_CONFIG => 0x02,
        libusb_descriptor_type::LIBUSB_DT_STRING => 0x03,
        libusb_descriptor_type::LIBUSB_DT_INTERFACE => 0x04,
        libusb_descriptor_type::LIBUSB_DT_ENDPOINT => 0x05,
        libusb_descriptor_type::LIBUSB_DT_BOS => 0x0f,
        libusb_descriptor_type::LIBUSB_DT_DEVICE_CAPABILITY => 0x10,
        libusb_descriptor_type::LIBUSB_DT_HID => 0x21,
        libusb_descriptor_type::LIBUSB_DT_REPORT => 0x22,
        libusb_descriptor_type::LIBUSB_DT_PHYSICAL => 0x23,
        libusb_descriptor_type::LIBUSB_DT_HUB => 0x29,
        libusb_descriptor_type::LIBUSB_DT_SUPERSPEED_HUB => 0x2a,
        libusb_descriptor_type::LIBUSB_DT_SS_ENDPOINT_COMPANION => 0x30,
    }
}

impl libusb_descriptor_type {
    /// The descriptor type byte.
    pub fn code(&self) -> (r: u8)
        ensures
            r == descriptor_type_value(*self),
    {
        match self {
            libusb_descriptor_type::LIBUSB_DT_DEVICE => 0x01,
            libusb_descriptor_type::LIBUSB_DT_CONFIG => 0x02,
            libusb_descriptor_type::LIBUSB_DT_STRING => 0x03,
            libusb_descriptor_type::LIBUSB_DT_INTERFACE => 0x04,
            libusb_descriptor_type::LIBUSB_DT_ENDPOINT => 0x05,
            libusb_descriptor_type::LIBUSB_DT_BOS => 0x0f,
            libusb_descriptor_type::LIBUSB_DT_DEVICE_CAPABILITY => 0x10,
            libusb_descriptor_type::LIBUSB_DT_HID => 0x21,
            libusb_descriptor_type::LIBUSB_DT_REPORT => 0x22,
            libusb_descriptor_type::LIBUSB_DT_PHYSICAL => 0x23,
            libusb_descriptor_type::LIBUSB_DT_HUB => 0x29,
            libusb_descriptor_type::LIBUSB_DT_SUPERSPEED_HUB => 0x2a,
            libusb_descriptor_type::LIBUSB_DT_SS_ENDPOINT_COMPANION => 0x30,
        }
    }
}

/// Direction bit of an endpoint address.
#[derive(Clone, Copy, Debug, PartialEq, Eq, Structural)]
pub enum libusb_endpoint_direction {
    /// Device to host.
    LIBUSB_ENDPOINT_IN,
    /// Host to device.
    LIBUSB_ENDPOINT_OUT,
}

impl libusb_endpoint_direction {
    /// The direction bit as it stands in an endpoint address.
    pub fn code(&self) -> (r: u8)
        ensures
            r == (if *self == libusb_endpoint_direction::LIBUSB_ENDPOINT_IN { 0x80u8 } else { 0u8 }),
    {
        match self {
            libusb_endpoint_direction::LIBUSB_ENDPOINT_IN => 0x80,
            libusb_endpoint_direction::LIBUSB_ENDPOINT_OUT => 0x00,
        }
    }

    /// The direction of the endpoint at address `endpoint`: bit 7 set means in.
    pub fn of_endpoint(endpoint: u8) -> (r: libusb_endpoint_direction)
        ensures
            r == libusb_endpoint_direction::LIBUSB_ENDPOINT_IN <==> endpoint >= 0x80,
    {
        if endpoint >= 0x80 {
            libusb_endpoint_direction::LIBUSB_ENDPOINT_IN
        } else {
            libusb_endpoint_direction::LIBUSB_ENDPOINT_OUT
        }
    }
}

/// Transfer kinds, as the transport numbers them in a transfer's type field.
#[derive(Clone, Copy, Debug, PartialEq, Eq, Structural)]
pub enum libusb_transfer_type {
    LIBUSB_TRANSFER_TYPE_CONTROL,
    LIBUSB_TRANSFER_TYPE_ISOCHRONOUS,
    LIBUSB_TRANSFER_TYPE_BULK,
    LIBUSB_TRANSFER_TYPE_INTERRUPT,
}

pub open spec fn transfer_type_code(t: libusb_transfer_type) -> u8 {
    match t {
        libusb_transfer_type::LIBUSB_TRANSFER_TYPE_CONTROL => 0,
        libusb_transfer_type::LIBUSB_TRANSFER_TYPE_ISOCHRONOUS => 1,
        libusb_transfer_type::LIBUSB_TRANSFER_TYPE_BULK => 2,
        libusb_transfer_type::LIBUSB_TRANSFER_TYPE_INTERRUPT => 3,
    }
}

impl libusb_transfer_type {
    /// The number the transport uses for this kind.
    pub fn code(&self) -> (r: u8)
        ensures
            r == transfer_type_code(*self),
    {
        match self {
            libusb_transfer_type::LIBUSB_TRANSFER_TYPE_CONTROL => 0,
            libusb_transfer_type::LIBUSB_TRANSFER_TYPE_ISOCHRONOUS => 1,
            libusb_transfer_type::LIBUSB_TRANSFER_TYPE_BULK => 2,
            libusb_transfer_type::LIBUSB_TRANSFER_TYPE_INTERRUPT => 3,
        }
    }
}

/// Error codes that the transport's calls return.
#[derive(Clone, Copy, Debug, PartialEq, Eq, Structural)]
pub enum libusb_error {
    LIBUSB_SUCCESS,
    LIBUSB_ERROR_IO,
    LIBUSB_ERROR_INVALID_PARAM,
    LIBUSB_ERROR_ACCESS,
    LIBUSB_ERROR_NO_DEVICE,
    LIBUSB_ERROR_NOT_FOUND,
    LIBUSB_ERROR_BUSY,
    LIBUSB_ERROR_TIMEOUT,
    LIBUSB_ERROR_OVERFLOW,
    LIBUSB_ERROR_PIPE,
    LIBUSB_ERROR_INTERRUPTED,
    LIBUSB_ERROR_NO_MEM,
    LIBUSB_ERROR_NOT_SUPPORTED,
    LIBUSB_ERROR_OTHER,
}

pub open spec fn error_code_value(e: libusb_error) -> i32 {
    match e {
        libusb_error::LIBUSB_SUCCESS => 0i32,
        libusb_error::LIBUSB_ERROR_IO => -1i32,
        libusb_error::LIBUSB_ERROR_INVALID_PARAM => -2i32,
        libusb_error::LIBUSB_ERROR_ACCESS => -3i32,
        libusb_error::LIBUSB_ERROR_NO_DEVICE => -4i32,
        libusb_error::LIBUSB_ERROR_NOT_FOUND => -5i32,
        libusb_error::LIBUSB_ERROR_BUSY => -6i32,
        libusb_error::LIBUSB_ERROR_TIMEOUT => -7i32,
        libusb_error::LIBUSB_ERROR_OVERFLOW => -8i32,
        libusb_error::LIBUSB_ERROR_PIPE => -9i32,
        libusb_error::LIBUSB_ERROR_INTERRUPTED => -10i32,
        libusb_error::LIBUSB_ERROR_NO_MEM => -11i32,
        libusb_error::LIBUSB_ERROR_NOT_SUPPORTED => -12i32,
        libusb_error::LIBUSB_ERROR_OTHER => -99i32,
    }
}

/// The error that a return code names; a code outside the table is `LIBUSB_ERROR_OTHER`.
pub open spec fn error_of_code(c: i32) -> libusb_error {
    if c == 0 {
        libusb_error::LIBUSB_SUCCESS
    } else if c == -1 {
        libusb_error::LIBUSB_ERROR_IO
    } else if c == -2 {
        libusb_error::LIBUSB_ERROR_INVALID_PARAM
    } else if c == -3 {
        libusb_error::LIBUSB_ERROR_ACCESS
    } else if c == -4 {
        libusb_error::LIBUSB_ERROR_NO_DEVICE
    } else if c == -5 {
        libusb_error::LIBUSB_ERROR_NOT_FOUND
    } else if c == -6 {
        libusb_error::LIBUSB_ERROR_BUSY
    } else if c == -7 {
        libusb_error::LIBUSB_ERROR_TIMEOUT
    } else if c == -8 {
        libusb_error::LIBUSB_ERROR_OVERFLOW
    } else if c == -9 {
        libusb_error::LIBUSB_ERROR_PIPE
    } else if c == -10 {
        libusb_error::LIBUSB_ERROR_INTERRUPTED
    } else if c == -11 {
        libusb_error::LIBUSB_ERROR_NO_MEM
    } else if c == -12 {
        libusb_error::LIBUSB_ERROR_NOT_SUPPORTED
    } else {
        libusb_error::LIBUSB_ERROR_OTHER
    }
}

impl libusb_error {
    /// The return code of this error.
    pub fn code(&self) -> (r: i32)
        ensures
            r == error_code_value(*self),
    {
        match self {
            libusb_error::LIBUSB_SUCCESS => 0,
            libusb_error::LIBUSB_ERROR_IO => -1,
            libusb_error::LIBUSB_ERROR_INVALID_PARAM => -2,
            libusb_error::LIBUSB_ERROR_ACCESS => -3,
            libusb_error::LIBUSB_ERROR_NO_DEVICE => -4,
            libusb_error::LIBUSB_ERROR_NOT_FOUND => -5,
            libusb_error::LIBUSB_ERROR_BUSY => -6,
            libusb_error::LIBUSB_ERROR_TIMEOUT => -7,
            libusb_error::LIBUSB_ERROR_OVERFLOW => -8,
            libusb_error::LIBUSB_ERROR_PIPE => -9,
            libusb_error::LIBUSB_ERROR_INTERRUPTED => -10,
            libusb_error::LIBUSB_ERROR_NO_MEM => -11,
            libusb_error::LIBUSB_ERROR_NOT_SUPPORTED => -12,
            libusb_error::LIBUSB_ERROR_OTHER => -99,
        }
    }

    /// The error that the return code `c` names.
    pub fn from_code(c: i32) -> (r: libusb_error)
        ensures
            r == error_of_code(c),
    {
        if c == 0 {
            libusb_error::LIBUSB_SUCCESS
        } else if c == -1 {
            libusb_error::LIBUSB_ERROR_IO
        } else if c == -2 {
            libusb_error::LIBUSB_ERROR_INVALID_PARAM
        } else if c == -3 {
            libusb_error::LIBUSB_ERROR_ACCESS
        } else if c == -4 {
            libusb_error::LIBUSB_ERROR_NO_DEVICE
        } else if c == -5 {
            libusb_error::LIBUSB_ERROR_NOT_FOUND
        } else if c == -6 {
            libusb_error::LIBUSB_ERROR_BUSY
        } else if c == -7 {
            libusb_error::LIBUSB_ERROR_TIMEOUT
        } else if c == -8 {
            libusb_error::LIBUSB_ERROR_OVERFLOW
        } else if c == -9 {
            libusb_error::LIBUSB_ERROR_PIPE
        } else if c == -10 {
            libusb_error::LIBUSB_ERROR_INTERRUPTED
        } else if c == -11 {
            libusb_error::LIBUSB_ERROR_NO_MEM
        } else if c == -12 {
            libusb_error::LIBUSB_ERROR_NOT_SUPPORTED
        } else {
            libusb_error::LIBUSB_ERROR_OTHER
        }
    }
}

/// How a transfer ended. Only `LIBUSB_TRANSFER_COMPLETED` is success; it does
/// not say that every requested byte moved.
#[derive(Clone, Copy, Debug, PartialEq, Eq, Structural)]
pub enum libusb_transfer_status {
    LIBUSB_TRANSFER_COMPLETED,
    LIBUSB_TRANSFER_ERROR,
    LIBUSB_TRANSFER_TIMED_OUT,
    LIBUSB_TRANSFER_CANCELLED,
    LIBUSB_TRANSFER_STALL,
    LIBUSB_TRANSFER_NO_DEVICE,
    LIBUSB_TRANSFER_OVERFLOW,
}

/// Number of status codes the transport defines: codes `0 .. STATUS_COUNT`.
pub const STATUS_COUNT: u32 = 7;

pub open spec fn status_code_value(s: libusb_transfer_status) -> u32 {
    match s {
        libusb_transfer_status::LIBUSB_TRANSFER_COMPLETED => 0,
        libusb_transfer_status::LIBUSB_TRANSFER_ERROR => 1,
        libusb_transfer_status::LIBUSB_TRANSFER_TIMED_OUT => 2,
        libusb_transfer_status::LIBUSB_TRANSFER_CANCELLED => 3,
        libusb_transfer_status::LIBUSB_TRANSFER_STALL => 4,
        libusb_transfer_status::LIBUSB_TRANSFER_NO_DEVICE => 5,
        libusb_transfer_status::LIBUSB_TRANSFER_OVERFLOW => 6,
    }
}

/// The status that code `c` names, if any.
pub open spec fn status_of_code(c: u32) -> Option<libusb_transfer_status> {
    if c == 0 {
        Some(libusb_transfer_status::LIBUSB_TRANSFER_COMPLETED)
    } else if c == 1 {
        Some(libusb_transfer_status::LIBUSB_TRANSFER_ERROR)
    } else if c == 2 {
        Some(libusb_transfer_status::LIBUSB_TRANSFER_TIMED_OUT)
    } else if c == 3 {
        Some(libusb_transfer_status::LIBUSB_TRANSFER_CANCELLED)
    } else if c == 4 {
        Some(libusb_transfer_status::LIBUSB_TRANSFER_STALL)
    } else if c == 5 {
        Some(libusb_transfer_status::LIBUSB_TRANSFER_NO_DEVICE)
    } else if c == 6 {
        Some(libusb_transfer_status::LIBUSB_TRANSFER_OVERFLOW)
    } else {
        None
    }
}

impl libusb_transfer_status {
    /// The status code of this status.
    pub fn code(&self) -> (r: u32)
        ensures
            r == status_code_value(*self),
            r < STATUS_COUNT,
    {
        match self {
            libusb_transfer_status::LIBUSB_TRANSFER_COMPLETED => 0,
            libusb_transfer_status::LIBUSB_TRANSFER_ERROR => 1,
            libusb_transfer_status::LIBUSB_TRANSFER_TIMED_OUT => 2,
            libusb_transfer_status::LIBUSB_TRANSFER_CANCELLED => 3,
            libusb_transfer_status::LIBUSB_TRANSFER_STALL => 4,
            libusb_transfer_status::LIBUSB_TRANSFER_NO_DEVICE => 5,
            libusb_transfer_status::LIBUSB_TRANSFER_OVERFLOW => 6,
        }
    }

    /// The status that code `c` names; `None` for a code the transport does not define.
    pub fn from_code(c: u32) -> (r: Option<libusb_transfer_status>)
        ensures
            r == status_of_code(c),
            r.is_some() <==> c < STATUS_COUNT,
    {
        if c == 0 {
            Some(libusb_transfer_status::LIBUSB_TRANSFER_COMPLETED)
        } else if c == 1 {
            Some(libusb_transfer_status::LIBUSB_TRANSFER_ERROR)
        } else if c == 2 {
            Some(libusb_transfer_status::LIBUSB_TRANSFER_TIMED_OUT)
        } else if c == 3 {
            Some(libusb_transfer_status::LIBUSB_TRANSFER_CANCELLED)
        } else if c == 4 {
            Some(libusb_transfer_status::LIBUSB_TRANSFER_STALL)
        } else if c == 5 {
            Some(libusb_transfer_status::LIBUSB_TRANSFER_NO_DEVICE)
        } else if c == 6 {
            Some(libusb_transfer_status::LIBUSB_TRANSFER_OVERFLOW)
        } else {
            None
        }
    }
}

/// Each status code names one status, and each status has one code.
pub proof fn lemma_status_code_round_trip(s: libusb_transfer_status)
    ensures
        status_of_code(status_code_value(s)) == Some(s),
{
}

/// The standard device descriptor, multi-byte fields in host order.
#[derive(Clone, Copy, Debug, PartialEq, Eq, Structural)]
pub struct libusb_device_descriptor {
    pub bLength: u8,
    pub bDescriptorType: u8,
    pub bcdUSB: u16,
    pub bDeviceClass: u8,
    pub bDeviceSubClass: u8,
    pub bDeviceProtocol: u8,
    pub bMaxPacketSize0: u8,
    pub idVendor: u16,
    pub idProduct: u16,
    pub bcdDevice: u16,
    pub iManufacturer: u8,
    pub iProduct: u8,
    pub iSerialNumber: u8,
    pub bNumConfigurations: u8,
}

/// Size of the setup header that opens every control transfer's buffer.
pub const LIBUSB_CONTROL_SETUP_SIZE: usize = 8;

/// The setup header of a control transfer.
#[derive(Clone, Copy, Debug, PartialEq, Eq, Structural)]
pub struct libusb_control_setup {
    /// Bits 0..4 recipient, bits 5..6 type, bit 7 direction.
    pub bmRequestType: u8,
    pub bRequest: u8,
    pub wValue: u16,
    pub wIndex: u16,
    /// Number of data bytes that follow the header.
    pub wLength: u16,
}

/// The low byte of `v`.
pub open spec fn lo(v: u16) -> u8 {
    (v % 256) as u8
}

/// The high byte of `v`.
pub open spec fn hi(v: u16) -> u8 {
    (v / 256) as u8
}

/// The value whose little-endian bytes are `l`, `h`.
pub open spec fn le16(l: u8, h: u8) -> u16 {
    (l + 256 * h) as u16
}

/// The wire form of a setup header: eight bytes, multi-byte fields little-endian.
pub open spec fn setup_bytes(s: libusb_control_setup) -> Seq<u8> {
    seq![
        s.bmRequestType,
        s.bRequest,
        lo(s.wValue),
        hi(s.wValue),
        lo(s.wIndex),
        hi(s.wIndex),
        lo(s.wLength),
        hi(s.wLength),
    ]
}

/// The setup header that the first eight bytes of `b` hold.
pub open spec fn setup_of_bytes(b: Seq<u8>) -> libusb_control_setup
    recommends
        b.len() >= 8,
{
    libusb_control_setup {
        bmRequestType: b[0],
        bRequest: b[1],
        wValue: le16(b[2], b[3]),
        wIndex: le16(b[4], b[5]),
        wLength: le16(b[6], b[7]),
    }
}

/// Splitting a 16-bit value into its two bytes and joining them again gives it back.
pub proof fn lemma_le16_round_trip(v: u16)
    ensures
        le16(lo(v), hi(v)) == v,
{
}

/// Decoding the wire form of a setup header gives back every field.
pub proof fn lemma_setup_round_trip(s: libusb_control_setup)
    ensures
        setup_of_bytes(setup_bytes(s)) == s,
        setup_bytes(s).len() == LIBUSB_CONTROL_SETUP_SIZE,
{
    lemma_le16_round_trip(s.wValue);
    lemma_le16_round_trip(s.wIndex);
    lemma_le16_round_trip(s.wLength);
}

fn push_le16(buf: &mut Vec<u8>, v: u16)
    ensures
        final(buf)@ == old(buf)@.push(lo(v)).push(hi(v)),
{
    buf.push((v % 256) as u8);
    buf.push((v / 256) as u8);
}

impl libusb_control_setup {
    /// The header's eight bytes on the wire.
    pub fn to_bytes(&self) -> (r: Vec<u8>)
        ensures
            r@ == setup_bytes(*self),
    {
        let mut r: Vec<u8> = Vec::with_capacity(LIBUSB_CONTROL_SETUP_SIZE);
        r.push(self.bmRequestType);
        r.push(self.bRequest);
        push_le16(&mut r, self.wValue);
        push_le16(&mut r, self.wIndex);
        push_le16(&mut r, self.wLength);
        assert(r@ =~= setup_bytes(*self));
        r
    }

    /// The header that the first eight bytes of `b` hold.
    pub fn from_bytes(b: &[u8]) -> (r: libusb_control_setup)
        requires
            b@.len() >= LIBUSB_CONTROL_SETUP_SIZE,
        ensures
            r == setup_of_bytes(b@),
    {
        libusb_control_setup {
            bmRequestType: b[0],
            bRequest: b[1],
            wValue: b[2] as u16 + 256 * (b[3] as u16),
            wIndex: b[4] as u16 + 256 * (b[5] as u16),
            wLength: b[6] as u16 + 256 * (b[7] as u16),
        }
    }
}

/// A transfer request as the library hands it to the transport and gets it
/// back: the transport fills `status` and `actual_length` on completion.
#[derive(Clone, Debug)]
pub struct libusb_transfer {
    /// The session the transfer goes to.
    pub dev_handle: libusb_device_handle,
    pub flags: u8,
    /// Address of the endpoint; bit 7 set for device-to-host.
    pub endpoint: u8,
    /// A `libusb_transfer_type` code.
    pub transfer_type: u8,
    /// Milliseconds; 0 waits without limit.
    pub timeout: u32,
    /// A `libusb_transfer_status` code, once completed.
    pub status: u32,
    /// Number of bytes of `buffer` that the transfer covers.
    pub length: usize,
    /// Number of bytes that moved, once completed.
    pub actual_length: usize,
    pub buffer: Vec<u8>,
    pub num_iso_packets: i32,
}

/// What the transport's record of a completed transfer can hold: a defined
/// status code, and no more bytes moved than the buffer has.
pub open spec fn completed_transfer(t: libusb_transfer) -> bool {
    &&& t.status < STATUS_COUNT
    &&& t.actual_length <= t.buffer@.len()
}

impl libusb_transfer {
    /// A transfer on `dev_handle` over all of `buffer`, not yet submitted.
    pub fn new(
        dev_handle: libusb_device_handle,
        endpoint: u8,
        transfer_type: libusb_transfer_type,
        buffer: Vec<u8>,
        timeout: u32,
    ) -> (r: libusb_transfer)
        ensures
            r.dev_handle == dev_handle,
            r.flags == 0,
            r.endpoint == endpoint,
            r.transfer_type == transfer_type_code(transfer_type),
            r.timeout == timeout,
            r.status == 0,
            r.length == buffer@.len(),
            r.actual_length == 0,
            r.buffer@ == buffer@,
            r.num_iso_packets == 0,
    {
        let length = buffer.len();
        libusb_transfer {
            dev_handle,
            flags: 0,
            endpoint,
            transfer_type: transfer_type.code(),
            timeout,
            status: 0,
            length,
            actual_length: 0,
            buffer,
            num_iso_packets: 0,
        }
    }

    /// The status the transport reported.
    pub fn get_status(&self) -> (r: libusb_transfer_status)
        requires
            self.status < STATUS_COUNT,
        ensures
            status_of_code(self.status) == Some(r),
    {
        match libusb_transfer_status::from_code(self.status) {
            Some(s) => s,
            None => libusb_transfer_status::LIBUSB_TRANSFER_ERROR,
        }
    }
    /// Records what the transport reported when the transfer completed:
    /// status code `status` and `actual_length` bytes moved. Returns whether
    /// the report is one the transport can give (a defined status, and no
    /// more bytes than the buffer holds); the transfer is unchanged when not.
    pub fn record_completion(&mut self, status: i32, actual_length: i32) -> (ok: bool)
        ensures
            ok == (0 <= status < STATUS_COUNT && 0 <= actual_length <= old(self).buffer@.len()),
            ok ==> completed_transfer(*final(self)),
            ok ==> final(self).status == status,
            ok ==> final(self).actual_length == actual_length,
            !ok ==> final(self).status == old(self).status,
            !ok ==> final(self).actual_length == old(self).actual_length,
            same_request(*old(self), *final(self)),
    {
        if 0 <= status && status < STATUS_COUNT as i32 && 0 <= actual_length
            && actual_length as usize <= self.buffer.len() {
            self.status = status as u32;
            self.actual_length = actual_length as usize;
            true
        } else {
            false
        }
    }

    /// Records that the transport refused to submit the transfer. It counts
    /// as completed with `LIBUSB_TRANSFER_ERROR`, and no byte moved.
    pub fn submission_failed(&mut self)
        ensures
            status_of_code(final(self).status) == Some(libusb_transfer_status::LIBUSB_TRANSFER_ERROR),
            final(self).actual_length == 0,
            completed_transfer(*final(self)),
            same_request(*old(self), *final(self)),
    {
        self.status = libusb_transfer_status::LIBUSB_TRANSFER_ERROR.code();
        self.actual_length = 0;
    }
}

/// `a` and `b` are the same request: they differ at most in what the
/// transport reports on completion.
pub open spec fn same_request(a: libusb_transfer, b: libusb_transfer) -> bool {
    &&& a.dev_handle == b.dev_handle
    &&& a.flags == b.flags
    &&& a.endpoint == b.endpoint
    &&& a.transfer_type == b.transfer_type
    &&& a.timeout == b.timeout
    &&& a.length == b.length
    &&& a.buffer@ == b.buffer@
    &&& a.num_iso_packets == b.num_iso_packets
}

} // verus!
