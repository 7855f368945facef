//! The FunctionFS records registering the Fastboot function with the
//! kernel gadget driver: an interface with two bulk endpoints in
//! full-, high- and super-speed variants, and the string table naming
//! the function. Every multi-byte field is serialized little-endian,
//! field by field, with no padding: the kernel reads a raw byte stream.

use vstd::prelude::*;

verus! {

/// Relies on `libusb1_sys::constants::LIBUSB_DT_INTERFACE`: the USB
/// interface descriptor type code, 0x04.
#[verifier::external_body]
fn dt_interface() -> (r: u8)
    ensures
        r == 0x04,
{
    libusb1_sys::constants::LIBUSB_DT_INTERFACE
}

/// Relies on `libusb1_sys::constants::LIBUSB_DT_ENDPOINT`: the USB
/// endpoint descriptor type code, 0x05.
#[verifier::external_body]
fn dt_endpoint() -> (r: u8)
    ensures
        r == 0x05,
{
    libusb1_sys::constants::LIBUSB_DT_ENDPOINT
}

/// Relies on `libusb1_sys::constants::LIBUSB_DT_SS_ENDPOINT_COMPANION`:
/// the super-speed endpoint companion descriptor type code, 0x30.
#[verifier::external_body]
fn dt_ss_endpoint_companion() -> (r: u8)
    ensures
        r == 0x30,
{
    libusb1_sys::constants::LIBUSB_DT_SS_ENDPOINT_COMPANION
}

/// Relies on `libusb1_sys::constants::LIBUSB_CLASS_VENDOR_SPEC`: the
/// vendor-specific device class code, 0xff.
#[verifier::external_body]
fn class_vendor_spec() -> (r: u8)
    ensures
        r == 0xff,
{
    libusb1_sys::constants::LIBUSB_CLASS_VENDOR_SPEC
}

/// The two bytes of `x`, least significant first.
pub open spec fn spec_u16_le(x: u16) -> Seq<u8> {
    seq![(x & 0xff) as u8, ((x >> 8) & 0xff) as u8]
}

/// The four bytes of `x`, least significant first.
pub open spec fn spec_u32_le(x: u32) -> Seq<u8> {
    seq![
        (x & 0xff) as u8,
        ((x >> 8) & 0xff) as u8,
        ((x >> 16) & 0xff) as u8,
        ((x >> 24) & 0xff) as u8,
    ]
}

fn push_u16_le(out: &mut Vec<u8>, x: u16)
    ensures
        final(out)@ == old(out)@ + spec_u16_le(x),
{
    out.push((x & 0xff) as u8);
    out.push(((x >> 8) & 0xff) as u8);
    assert(out@ =~= old(out)@ + spec_u16_le(x));
}

fn push_u32_le(out: &mut Vec<u8>, x: u32)
    ensures
        final(out)@ == old(out)@ + spec_u32_le(x),
{
    out.push((x & 0xff) as u8);
    out.push(((x >> 8) & 0xff) as u8);
    out.push(((x >> 16) & 0xff) as u8);
    out.push(((x >> 24) & 0xff) as u8);
    assert(out@ =~= old(out)@ + spec_u32_le(x));
}

/// A USB interface descriptor, as the kernel expects it: 9 bytes.
#[derive(Clone, Copy, Debug, PartialEq, Eq, Structural)]
pub struct InterfaceDesc {
    pub length: u8,
    pub desc_type: u8,
    pub interface_num: u8,
    pub alt_setting: u8,
    pub num_endpoints: u8,
    pub class: u8,
    pub subclass: u8,
    pub proto: u8,
    pub interface: u8,
}

impl InterfaceDesc {
    pub open spec fn spec_bytes(self) -> Seq<u8> {
        seq![
            self.length,
            self.desc_type,
            self.interface_num,
            self.alt_setting,
            self.num_endpoints,
            self.class,
            self.subclass,
            self.proto,
            self.interface,
        ]
    }
}

/// A USB endpoint descriptor without audio extensions: 7 bytes.
#[derive(Clone, Copy, Debug, PartialEq, Eq, Structural)]
pub struct EndpointDescNoAudio {
    pub length: u8,
    pub desc_type: u8,
    pub addr: u8,
    pub attr: u8,
    pub max_packet_size: u16,
    pub interval: u8,
}

impl EndpointDescNoAudio {
    pub open spec fn spec_bytes(self) -> Seq<u8> {
        seq![self.length, self.desc_type, self.addr, self.attr] + spec_u16_le(self.max_packet_size)
            + seq![self.interval]
    }
}

/// A super-speed endpoint companion descriptor: 6 bytes.
#[derive(Clone, Copy, Debug, PartialEq, Eq, Structural)]
pub struct SsEpCompDesc {
    pub length: u8,
    pub desc_type: u8,
    pub max_burst: u8,
    pub attr: u8,
    pub bytes_per_interval: u16,
}

impl SsEpCompDesc {
    pub open spec fn spec_bytes(self) -> Seq<u8> {
        seq![self.length, self.desc_type, self.max_burst, self.attr] + spec_u16_le(
            self.bytes_per_interval,
        )
    }
}

/// One full- or high-speed descriptor set: the interface and its two
/// bulk endpoints.
#[derive(Clone, Copy, Debug, PartialEq, Eq, Structural)]
pub struct FuncDesc {
    pub interface: InterfaceDesc,
    pub source: EndpointDescNoAudio,
    pub sink: EndpointDescNoAudio,
}

impl FuncDesc {
    pub open spec fn spec_bytes(self) -> Seq<u8> {
        self.interface.spec_bytes() + self.source.spec_bytes() + self.sink.spec_bytes()
    }
}

/// The super-speed descriptor set: each endpoint is followed by its
/// companion descriptor.
#[derive(Clone, Copy, Debug, PartialEq, Eq, Structural)]
pub struct SsFuncDesc {
    pub interface: InterfaceDesc,
    pub source: EndpointDescNoAudio,
    pub source_comp: SsEpCompDesc,
    pub sink: EndpointDescNoAudio,
    pub sink_comp: SsEpCompDesc,
}

impl SsFuncDesc {
    pub open spec fn spec_bytes(self) -> Seq<u8> {
        self.interface.spec_bytes() + self.source.spec_bytes() + self.source_comp.spec_bytes()
            + self.sink.spec_bytes() + self.sink_comp.spec_bytes()
    }
}

/// The top-level "descriptors v2" record: magic, total length, speed
/// flags, per-speed descriptor counts, then the three descriptor sets.
#[derive(Clone, Copy, Debug, PartialEq, Eq, Structural)]
pub struct DescV2 {
    pub magic: u32,
    pub length: u32,
    pub flags: u32,
    pub fs_count: u32,
    pub hs_count: u32,
    pub ss_count: u32,
    pub fs_descs: FuncDesc,
    pub hs_descs: FuncDesc,
    pub ss_descs: SsFuncDesc,
}

impl DescV2 {
    pub open spec fn spec_bytes(self) -> Seq<u8> {
        spec_u32_le(self.magic) + spec_u32_le(self.length) + spec_u32_le(self.flags) + spec_u32_le(
            self.fs_count,
        ) + spec_u32_le(self.hs_count) + spec_u32_le(self.ss_count) + self.fs_descs.spec_bytes()
            + self.hs_descs.spec_bytes() + self.ss_descs.spec_bytes()
    }

    /// Serialize the record exactly as specified: every field in order,
    /// multi-byte fields little-endian, no padding.
    pub fn as_bytes(&self) -> (r: Vec<u8>)
        ensures
            r@ == self.spec_bytes(),
    {
        let mut out: Vec<u8> = Vec::new();
        push_u32_le(&mut out, self.magic);
        push_u32_le(&mut out, self.length);
        push_u32_le(&mut out, self.flags);
        push_u32_le(&mut out, self.fs_count);
        push_u32_le(&mut out, self.hs_count);
        push_u32_le(&mut out, self.ss_count);
        push_func_desc(&mut out, &self.fs_descs);
        push_func_desc(&mut out, &self.hs_descs);
        push_ss_func_desc(&mut out, &self.ss_descs);
        assert(out@ =~= self.spec_bytes());
        out
    }
}

fn push_interface_desc(out: &mut Vec<u8>, d: &InterfaceDesc)
    ensures
        final(out)@ == old(out)@ + d.spec_bytes(),
{
    out.push(d.length);
    out.push(d.desc_type);
    out.push(d.interface_num);
    out.push(d.alt_setting);
    out.push(d.num_endpoints);
    out.push(d.class);
    out.push(d.subclass);
    out.push(d.proto);
    out.push(d.interface);
    assert(out@ =~= old(out)@ + d.spec_bytes());
}

fn push_endpoint_desc(out: &mut Vec<u8>, d: &EndpointDescNoAudio)
    ensures
        final(out)@ == old(out)@ + d.spec_bytes(),
{
    out.push(d.length);
    out.push(d.desc_type);
    out.push(d.addr);
    out.push(d.attr);
    push_u16_le(out, d.max_packet_size);
    out.push(d.interval);
    assert(out@ =~= old(out)@ + d.spec_bytes());
}

fn push_ss_comp_desc(out: &mut Vec<u8>, d: &SsEpCompDesc)
    ensures
        final(out)@ == old(out)@ + d.spec_bytes(),
{
    out.push(d.length);
    out.push(d.desc_type);
    out.push(d.max_burst);
    out.push(d.attr);
    push_u16_le(out, d.bytes_per_interval);
    assert(out@ =~= old(out)@ + d.spec_bytes());
}

fn push_func_desc(out: &mut Vec<u8>, d: &FuncDesc)
    ensures
        final(out)@ == old(out)@ + d.spec_bytes(),
{
    push_interface_desc(out, &d.interface);
    push_endpoint_desc(out, &d.source);
    push_endpoint_desc(out, &d.sink);
    assert(out@ =~= old(out)@ + d.spec_bytes());
}

fn push_ss_func_desc(out: &mut Vec<u8>, d: &SsFuncDesc)
    ensures
        final(out)@ == old(out)@ + d.spec_bytes(),
{
    push_interface_desc(out, &d.interface);
    push_endpoint_desc(out, &d.source);
    push_ss_comp_desc(out, &d.source_comp);
    push_endpoint_desc(out, &d.sink);
    push_ss_comp_desc(out, &d.sink_comp);
    assert(out@ =~= old(out)@ + d.spec_bytes());
}

/// Bulk transfer attribute for an endpoint.
pub const USB_ENDPOINT_XFER_BULK: u8 = 2;

/// Direction bit for a device-to-host (IN) endpoint address.
pub const USB_DIR_IN: u8 = 0x80;

/// The Fastboot interface: vendor-specific class, the fixed
/// subclass/protocol pair identifying the Fastboot function, two
/// endpoints, interface number and alternate setting zero.
pub open spec fn spec_fastboot_interface() -> InterfaceDesc {
    InterfaceDesc {
        length: 9,
        desc_type: 0x04,
        interface_num: 0,
        alt_setting: 0,
        num_endpoints: 2,
        class: 0xff,
        subclass: 66,
        proto: 3,
        interface: 1,
    }
}

/// A bulk endpoint at `addr` with the given packet ceiling.
pub open spec fn spec_bulk_endpoint(addr: u8, max_packet: u16) -> EndpointDescNoAudio {
    EndpointDescNoAudio {
        length: 7,
        desc_type: 0x05,
        addr,
        attr: USB_ENDPOINT_XFER_BULK,
        max_packet_size: max_packet,
        interval: 0,
    }
}

/// The companion of a super-speed bulk endpoint: max burst 15, no
/// streaming attributes.
pub open spec fn spec_ss_companion() -> SsEpCompDesc {
    SsEpCompDesc { length: 6, desc_type: 0x30, max_burst: 15, attr: 0, bytes_per_interval: 0 }
}

/// A full descriptor set at one speed: OUT endpoint 1, IN endpoint 1.
pub open spec fn spec_func_desc(max_packet: u16) -> FuncDesc {
    FuncDesc {
        interface: spec_fastboot_interface(),
        source: spec_bulk_endpoint(1, max_packet),
        sink: spec_bulk_endpoint(1 | USB_DIR_IN, max_packet),
    }
}

/// The super-speed descriptor set: packet ceiling 1024, companions after
/// each endpoint.
pub open spec fn spec_ss_func_desc() -> SsFuncDesc {
    SsFuncDesc {
        interface: spec_fastboot_interface(),
        source: spec_bulk_endpoint(1, 1024),
        source_comp: spec_ss_companion(),
        sink: spec_bulk_endpoint(1 | USB_DIR_IN, 1024),
        sink_comp: spec_ss_companion(),
    }
}

/// The exact byte size of the serialized "descriptors v2" record.
pub const DESC_V2_BYTE_LEN: u32 = 105;

/// The whole "descriptors v2" record: magic 3, total length, flags
/// saying all three speed sets are present, counts 3/3/5, then the
/// full-, high- and super-speed sets (packet ceilings 64/512/1024).
pub open spec fn spec_fastboot_descriptor_v2() -> DescV2 {
    DescV2 {
        magic: 3,
        length: DESC_V2_BYTE_LEN,
        flags: 7,
        fs_count: 3,
        hs_count: 3,
        ss_count: 5,
        fs_descs: spec_func_desc(64),
        hs_descs: spec_func_desc(512),
        ss_descs: spec_ss_func_desc(),
    }
}

/// The total-length field of the descriptor record equals the record's
/// exact serialized byte size.
pub proof fn lemma_descriptor_length_exact()
    ensures
        spec_fastboot_descriptor_v2().spec_bytes().len() == DESC_V2_BYTE_LEN,
        spec_fastboot_descriptor_v2().length == DESC_V2_BYTE_LEN,
{
}

fn fastboot_interface() -> (d: InterfaceDesc)
    ensures
        d == spec_fastboot_interface(),
{
    InterfaceDesc {
        length: 9,
        desc_type: dt_interface(),
        interface_num: 0,
        alt_setting: 0,
        num_endpoints: 2,
        class: class_vendor_spec(),
        subclass: 66,
        proto: 3,
        interface: 1,
    }
}

fn fastboot_bulk_endpoint(addr: u8, max_packet: u16) -> (d: EndpointDescNoAudio)
    ensures
        d == spec_bulk_endpoint(addr, max_packet),
{
    EndpointDescNoAudio {
        length: 7,
        desc_type: dt_endpoint(),
        addr,
        attr: USB_ENDPOINT_XFER_BULK,
        max_packet_size: max_packet,
        interval: 0,
    }
}

fn fastboot_ss_companion() -> (d: SsEpCompDesc)
    ensures
        d == spec_ss_companion(),
{
    SsEpCompDesc {
        length: 6,
        desc_type: dt_ss_endpoint_companion(),
        max_burst: 15,
        attr: 0,
        bytes_per_interval: 0,
    }
}

/// Build the descriptor record sent to the control endpoint at startup.
pub fn fastboot_descriptor_v2() -> (d: DescV2)
    ensures
        d == spec_fastboot_descriptor_v2(),
{
    DescV2 {
        magic: 3,
        length: DESC_V2_BYTE_LEN,
        flags: 7,
        fs_count: 3,
        hs_count: 3,
        ss_count: 5,
        fs_descs: FuncDesc {
            interface: fastboot_interface(),
            source: fastboot_bulk_endpoint(1, 64),
            sink: fastboot_bulk_endpoint(1 | USB_DIR_IN, 64),
        },
        hs_descs: FuncDesc {
            interface: fastboot_interface(),
            source: fastboot_bulk_endpoint(1, 512),
            sink: fastboot_bulk_endpoint(1 | USB_DIR_IN, 512),
        },
        ss_descs: SsFuncDesc {
            interface: fastboot_interface(),
            source: fastboot_bulk_endpoint(1, 1024),
            source_comp: fastboot_ss_companion(),
            sink: fastboot_bulk_endpoint(1 | USB_DIR_IN, 1024),
            sink_comp: fastboot_ss_companion(),
        },
    }
}

/// The bytes of "fastbootd", NUL-terminated.
pub open spec fn spec_iface_string() -> Seq<u8> {
    seq![0x66u8, 0x61, 0x73, 0x74, 0x62, 0x6f, 0x6f, 0x74, 0x64, 0x00]
}

/// The exact byte size of the serialized string-table record.
pub const FFS_STRINGS_BYTE_LEN: u32 = 28;

/// The serialized string table: magic 2, total length, one string in
/// one language (US English, 0x0409), naming the function "fastbootd".
pub open spec fn spec_fastboot_strings_bytes() -> Seq<u8> {
    spec_u32_le(2) + spec_u32_le(FFS_STRINGS_BYTE_LEN) + spec_u32_le(1) + spec_u32_le(1)
        + spec_u16_le(0x409) + spec_iface_string()
}

/// The string-table record registering the function's name with the
/// kernel: magic, total length, string and language counts, language
/// code, and the NUL-terminated name.
#[derive(Clone, Debug)]
pub struct FfsStringData {
    pub magic: u32,
    pub length: u32,
    pub str_count: u32,
    pub lang_count: u32,
    pub code: u16,
    pub str1: Vec<u8>,
}

impl FfsStringData {
    pub open spec fn spec_bytes(self) -> Seq<u8> {
        spec_u32_le(self.magic) + spec_u32_le(self.length) + spec_u32_le(self.str_count)
            + spec_u32_le(self.lang_count) + spec_u16_le(self.code) + self.str1@
    }

    /// Serialize the record exactly as specified: every field in order,
    /// multi-byte fields little-endian, no padding.
    pub fn as_bytes(&self) -> (r: Vec<u8>)
        ensures
            r@ == self.spec_bytes(),
    {
        let mut out: Vec<u8> = Vec::new();
        push_u32_le(&mut out, self.magic);
        push_u32_le(&mut out, self.length);
        push_u32_le(&mut out, self.str_count);
        push_u32_le(&mut out, self.lang_count);
        push_u16_le(&mut out, self.code);
        out.extend_from_slice(self.str1.as_slice());
        assert(out@ =~= self.spec_bytes());
        out
    }
}

/// Build the string table sent to the control endpoint at startup.
pub fn fastboot_strings() -> (s: FfsStringData)
    ensures
        s.spec_bytes() == spec_fastboot_strings_bytes(),
        s.spec_bytes().len() == FFS_STRINGS_BYTE_LEN,
{
    let mut name: Vec<u8> = Vec::new();
    name.push(0x66);  // f
    name.push(0x61);  // a
    name.push(0x73);  // s
    name.push(0x74);  // t
    name.push(0x62);  // b
    name.push(0x6f);  // o
    name.push(0x6f);  // o
    name.push(0x74);  // t
    name.push(0x64);  // d
    name.push(0x00);
    assert(name@ =~= spec_iface_string());
    let s = FfsStringData {
        magic: 2,
        length: FFS_STRINGS_BYTE_LEN,
        str_count: 1,
        lang_count: 1,
        code: 0x409,
        str1: name,
    };
    assert(s.spec_bytes() =~= spec_fastboot_strings_bytes());
    s
}

} // verus!
