//! The data that crosses the TWAIN boundary, as plain values.
//!
//! These mirror the structures of twain.h (v2.3) that hold no pointers. The
//! memory layout the data source manager expects belongs to the code that
//! calls it.

use vstd::prelude::*;
use vstd::string::*;

verus! {

pub type TW_STR32 = [i8; 34];

pub type TW_STR255 = [i8; 256];

/// Fixed-point number: whole + frac/65536
#[derive(Debug, Clone, Copy, Default, PartialEq, Eq, Structural)]
pub struct TW_FIX32 {
    pub Whole: i16,
    pub Frac: u16,
}

/// Rectangle coordinates in ICAP_UNITS
#[derive(Debug, Clone, Copy, Default, PartialEq, Eq, Structural)]
pub struct TW_FRAME {
    pub Left: TW_FIX32,
    pub Top: TW_FIX32,
    pub Right: TW_FIX32,
    pub Bottom: TW_FIX32,
}

/// Software version information
#[derive(Debug, Clone, Copy)]
pub struct TW_VERSION {
    pub MajorNum: u16,
    pub MinorNum: u16,
    pub Language: u16,
    pub Country: u16,
    pub Info: TW_STR32,
}

/// Identifies a TWAIN entity (application or data source)
#[derive(Debug, Clone, Copy)]
pub struct TW_IDENTITY {
    pub Id: u32,
    pub Version: TW_VERSION,
    pub ProtocolMajor: u16,
    pub ProtocolMinor: u16,
    pub SupportedGroups: u32,
    pub Manufacturer: TW_STR32,
    pub ProductFamily: TW_STR32,
    pub ProductName: TW_STR32,
}

/// Describes a scanned image's attributes
#[derive(Debug, Clone, Copy, Default)]
pub struct TW_IMAGEINFO {
    pub XResolution: TW_FIX32,
    pub YResolution: TW_FIX32,
    pub ImageWidth: i32,
    pub ImageLength: i32,
    pub SamplesPerPixel: i16,
    pub BitsPerSample: [i16; 8],
    pub BitsPerPixel: i16,
    pub Planar: u16,
    pub PixelType: i16,
    pub Compression: u16,
}

/// Remaining transfers available
#[derive(Debug, Clone, Copy, Default, PartialEq, Eq, Structural)]
pub struct TW_PENDINGXFERS {
    pub Count: u16,
    pub EOJ: u32,
}

/// Memory transfer buffer size information
#[derive(Debug, Clone, Copy, Default, PartialEq, Eq, Structural)]
pub struct TW_SETUPMEMXFER {
    pub MinBufSize: u32,
    pub MaxBufSize: u32,
    pub Preferred: u32,
}

/// Image layout on the page
#[derive(Debug, Clone, Copy, Default, PartialEq, Eq, Structural)]
pub struct TW_IMAGELAYOUT {
    pub Frame: TW_FRAME,
    pub DocumentNumber: u32,
    pub PageNumber: u32,
    pub FrameNumber: u32,
}

/// TWAIN status information
#[derive(Debug, Clone, Copy, Default, PartialEq, Eq, Structural)]
pub struct TW_STATUS {
    pub ConditionCode: u16,
    pub Data: u16,
}

/// Single value container
#[derive(Debug, Clone, Copy, Default, PartialEq, Eq, Structural)]
pub struct TW_ONEVALUE {
    pub ItemType: u16,
    pub Item: u32,
}

/// Range of values container
#[derive(Debug, Clone, Copy, Default, PartialEq, Eq, Structural)]
pub struct TW_RANGE {
    pub ItemType: u16,
    pub MinValue: u32,
    pub MaxValue: u32,
    pub StepSize: u32,
    pub DefaultValue: u32,
    pub CurrentValue: u32,
}

/// Enumeration container (variable-length, ItemList is the first element)
#[derive(Debug, Clone, Copy)]
pub struct TW_ENUMERATION {
    pub ItemType: u16,
    pub NumItems: u32,
    pub CurrentIndex: u32,
    pub DefaultIndex: u32,
    pub ItemList: [u8; 1],
}

// Data Groups
pub const DG_CONTROL: u32 = 0x0001;
pub const DG_IMAGE: u32 = 0x0002;
pub const DG_AUDIO: u32 = 0x0004;

// Data Argument Types (DAT_*)
pub const DAT_CAPABILITY: u16 = 0x0001;
pub const DAT_EVENT: u16 = 0x0002;
pub const DAT_IDENTITY: u16 = 0x0003;
pub const DAT_PARENT: u16 = 0x0004;
pub const DAT_PENDINGXFERS: u16 = 0x0005;
pub const DAT_SETUPMEMXFER: u16 = 0x0006;
pub const DAT_SETUPFILEXFER: u16 = 0x0007;
pub const DAT_STATUS: u16 = 0x0008;
pub const DAT_USERINTERFACE: u16 = 0x0009;
pub const DAT_IMAGEINFO: u16 = 0x0101;
pub const DAT_IMAGELAYOUT: u16 = 0x0102;
pub const DAT_IMAGEMEMXFER: u16 = 0x0103;
pub const DAT_IMAGENATIVEXFER: u16 = 0x0104;

// Messages (MSG_*)
pub const MSG_GET: u16 = 0x0001;
pub const MSG_GETCURRENT: u16 = 0x0002;
pub const MSG_GETDEFAULT: u16 = 0x0003;
pub const MSG_GETFIRST: u16 = 0x0004;
pub const MSG_GETNEXT: u16 = 0x0005;
pub const MSG_SET: u16 = 0x0006;
pub const MSG_RESET: u16 = 0x0007;
pub const MSG_OPENDSM: u16 = 0x0301;
pub const MSG_CLOSEDSM: u16 = 0x0302;
pub const MSG_OPENDS: u16 = 0x0401;
pub const MSG_CLOSEDS: u16 = 0x0402;
pub const MSG_DISABLEDS: u16 = 0x0501;
pub const MSG_ENABLEDS: u16 = 0x0502;
pub const MSG_PROCESSEVENT: u16 = 0x0601;
pub const MSG_ENDXFER: u16 = 0x0701;
pub const MSG_XFERREADY: u16 = 0x0101;
pub const MSG_CLOSEDSREQ: u16 = 0x0102;
pub const MSG_CLOSEDSOK: u16 = 0x0103;

// Return Codes (TWRC_*)
pub const TWRC_SUCCESS: u16 = 0;
pub const TWRC_FAILURE: u16 = 1;
pub const TWRC_CHECKSTATUS: u16 = 2;
pub const TWRC_CANCEL: u16 = 3;
pub const TWRC_DSEVENT: u16 = 4;
pub const TWRC_NOTDSEVENT: u16 = 5;
pub const TWRC_XFERDONE: u16 = 6;
pub const TWRC_ENDOFLIST: u16 = 7;

// Condition Codes (TWCC_*)
pub const TWCC_SUCCESS: u16 = 0;
pub const TWCC_BUMMER: u16 = 1;
pub const TWCC_LOWMEMORY: u16 = 2;
pub const TWCC_NODS: u16 = 3;
pub const TWCC_OPERATIONERROR: u16 = 6;
pub const TWCC_BADCAP: u16 = 9;
pub const TWCC_BADVALUE: u16 = 10;
pub const TWCC_SEQERROR: u16 = 11;
pub const TWCC_BADDEST: u16 = 12;
pub const TWCC_CAPUNSUPPORTED: u16 = 13;
pub const TWCC_CAPBADOPERATION: u16 = 14;
pub const TWCC_PAPERJAM: u16 = 16;
pub const TWCC_PAPERDOUBLEFEED: u16 = 17;

// Capabilities (CAP_* / ICAP_*)
pub const CAP_XFERCOUNT: u16 = 0x0001;
pub const CAP_FEEDERENABLED: u16 = 0x1002;
pub const CAP_FEEDERLOADED: u16 = 0x1003;
pub const CAP_AUTOFEED: u16 = 0x1007;
pub const CAP_DUPLEX: u16 = 0x1012;
pub const CAP_DUPLEXENABLED: u16 = 0x1013;
pub const ICAP_COMPRESSION: u16 = 0x0100;
pub const ICAP_PIXELTYPE: u16 = 0x0101;
pub const ICAP_UNITS: u16 = 0x0102;
pub const ICAP_XFERMECH: u16 = 0x0103;
pub const ICAP_BITDEPTH: u16 = 0x112B;
pub const ICAP_BITORDER: u16 = 0x111C;
pub const ICAP_PIXELFLAVOR: u16 = 0x111F;
pub const ICAP_XRESOLUTION: u16 = 0x1118;
pub const ICAP_YRESOLUTION: u16 = 0x1119;

// Pixel Types (TWPT_*)
pub const TWPT_BW: u16 = 0;
pub const TWPT_GRAY: u16 = 1;
pub const TWPT_RGB: u16 = 2;
pub const TWPT_PALETTE: u16 = 3;
pub const TWPT_CMY: u16 = 4;
pub const TWPT_CMYK: u16 = 5;

// Pixel Flavours (TWPF_*): the intensity a zero bit stands for
pub const TWPF_CHOCOLATE: u16 = 0;
pub const TWPF_VANILLA: u16 = 1;

// Bit Orders (TWBO_*)
pub const TWBO_LSBFIRST: u16 = 0;
pub const TWBO_MSBFIRST: u16 = 1;

// Item Types (TWTY_*), as the scan paths tag their values
pub const TWTY_INT16: u16 = 3;
pub const TWTY_UINT16: u16 = 4;
pub const TWTY_FIX32: u16 = 7;

// Container Types (TWON_*)
pub const TWON_ARRAY: u16 = 3;
pub const TWON_ENUMERATION: u16 = 4;
pub const TWON_ONEVALUE: u16 = 5;
pub const TWON_RANGE: u16 = 6;

// Transfer Mechanisms (TWSX_*)
pub const TWSX_NATIVE: u16 = 0;
pub const TWSX_FILE: u16 = 1;
pub const TWSX_MEMORY: u16 = 2;
pub const TWSX_MEMFILE: u16 = 4;

// Compression Types (TWCP_*)
pub const TWCP_NONE: u16 = 0;
pub const TWCP_GROUP31D: u16 = 2;
pub const TWCP_GROUP32D: u16 = 3;
pub const TWCP_GROUP4: u16 = 5;
pub const TWCP_JPEG: u16 = 6;

// Units (TWUN_*)
pub const TWUN_INCHES: u16 = 0;
pub const TWUN_CENTIMETERS: u16 = 1;
pub const TWUN_PIXELS: u16 = 5;

// Memory Flags (TWMF_*)
pub const TWMF_APPOWNS: u32 = 0x0001;
pub const TWMF_DSMOWNS: u32 = 0x0002;
pub const TWMF_DSOWNS: u32 = 0x0004;
pub const TWMF_POINTER: u32 = 0x0008;
pub const TWMF_HANDLE: u32 = 0x0010;

// TWAIN Protocol Version
pub const TWON_PROTOCOLMAJOR: u16 = 2;
pub const TWON_PROTOCOLMINOR: u16 = 3;

// Language (TWLG_*) and Country (TWCY_*)
pub const TWLG_ENGLISH_USA: u16 = 13;
pub const TWCY_USA: u16 = 1;

/// The whole-number resolution `resolution` as a TWAIN fixed-point value, which
/// saturates at the largest one.
pub open spec fn fix32_of(resolution: u32) -> TW_FIX32 {
    if resolution <= 32767 {
        TW_FIX32 { Whole: resolution as i16, Frac: 0 }
    } else {
        TW_FIX32 { Whole: 32767, Frac: 65535 }
    }
}

impl TW_FIX32 {
    /// A whole-number resolution as a fixed-point value.
    pub fn from_resolution(resolution: u32) -> (r: TW_FIX32)
        ensures
            r == fix32_of(resolution),
    {
        if resolution <= 32767 {
            TW_FIX32 { Whole: resolution as i16, Frac: 0 }
        } else {
            TW_FIX32 { Whole: 32767, Frac: 65535 }
        }
    }

    /// The 32 bits that carry this value in a capability container: the whole
    /// part in the low half, the fraction in the high half.
    pub open spec fn bits(self) -> u32 {
        ((self.Whole as u16) as int + 65536 * (self.Frac as int)) as u32
    }

    /// The value as the 32 bits that a capability container holds.
    pub fn to_item(self) -> (r: u32)
        ensures
            r == self.bits(),
    {
        (self.Whole as u16) as u32 + 65536u32 * (self.Frac as u32)
    }
}

impl Default for TW_VERSION {
    fn default() -> (r: Self)
        ensures
            r.MajorNum == 0,
            r.MinorNum == 0,
            r.Language == 0,
            r.Country == 0,
            forall|i: int| 0 <= i < 34 ==> r.Info@[i] == 0,
    {
        TW_VERSION { MajorNum: 0, MinorNum: 0, Language: 0, Country: 0, Info: [0; 34] }
    }
}

impl Default for TW_IDENTITY {
    fn default() -> (r: Self)
        ensures
            r.Id == 0,
            r.Version.MajorNum == 0,
            r.Version.MinorNum == 0,
            r.Version.Language == 0,
            r.Version.Country == 0,
            forall|i: int| 0 <= i < 34 ==> r.Version.Info@[i] == 0,
            r.ProtocolMajor == 0,
            r.ProtocolMinor == 0,
            r.SupportedGroups == 0,
            forall|i: int| 0 <= i < 34 ==> r.Manufacturer@[i] == 0,
            forall|i: int| 0 <= i < 34 ==> r.ProductFamily@[i] == 0,
            forall|i: int| 0 <= i < 34 ==> r.ProductName@[i] == 0,
    {
        TW_IDENTITY {
            Id: 0,
            Version: TW_VERSION::default(),
            ProtocolMajor: 0,
            ProtocolMinor: 0,
            SupportedGroups: 0,
            Manufacturer: [0; 34],
            ProductFamily: [0; 34],
            ProductName: [0; 34],
        }
    }
}

/// `bytes` in a zero-filled field of `size` cells, of which the last stays zero.
pub open spec fn field_of(bytes: Seq<u8>, size: nat) -> Seq<i8> {
    Seq::new(
        size,
        |i: int|
            if i < bytes.len() && i < size - 1 {
                bytes[i] as i8
            } else {
                0i8
            },
    )
}

/// The number of cells before the first zero.
pub open spec fn field_len(cells: Seq<i8>) -> nat
    decreases cells.len(),
{
    if cells.len() == 0 || cells[0] == 0 {
        0
    } else {
        1 + field_len(cells.drop_first())
    }
}

/// The characters of a zero-terminated field, each cell read as a Latin-1 code.
pub open spec fn field_text(cells: Seq<i8>) -> Seq<char> {
    Seq::new(field_len(cells), |i: int| (cells[i] as u8) as char)
}

proof fn lemma_field_len(cells: Seq<i8>, n: nat)
    requires
        n <= cells.len(),
        forall|i: int| 0 <= i < n ==> cells[i] != 0,
        n < cells.len() ==> cells[n as int] == 0,
    ensures
        field_len(cells) == n,
    decreases cells.len(),
{
    if n > 0 {
        assert(cells[0] != 0);
        let rest = cells.drop_first();
        assert forall|i: int| 0 <= i < n - 1 implies rest[i] != 0 by {
            assert(rest[i] == cells[i + 1]);
        }
        lemma_field_len(rest, (n - 1) as nat);
    }
}

/// Store a string in a 34-cell field, cut after 33 bytes.
pub fn str_to_tw_str32(s: &str) -> (r: TW_STR32)
    ensures
        r@ == field_of(s.spec_bytes(), 34),
{
    let mut buf: TW_STR32 = [0; 34];
    let bytes = s.as_bytes();
    let mut i: usize = 0;
    while i < bytes.len() && i < 33
        invariant
            bytes@ == s.spec_bytes(),
            i <= bytes.len(),
            i <= 33,
            buf@.len() == 34,
            forall|j: int| 0 <= j < i ==> buf@[j] == bytes@[j] as i8,
            forall|j: int| i <= j < 34 ==> buf@[j] == 0,
        decreases 33 - i,
    {
        buf[i] = bytes[i] as i8;
        i += 1;
    }
    assert(buf@ =~= field_of(s.spec_bytes(), 34));
    buf
}

/// Store a string in a 256-cell field, cut after 255 bytes.
pub fn str_to_tw_str255(s: &str) -> (r: TW_STR255)
    ensures
        r@ == field_of(s.spec_bytes(), 256),
{
    let mut buf: TW_STR255 = [0; 256];
    let bytes = s.as_bytes();
    let mut i: usize = 0;
    while i < bytes.len() && i < 255
        invariant
            bytes@ == s.spec_bytes(),
            i <= bytes.len(),
            i <= 255,
            buf@.len() == 256,
            forall|j: int| 0 <= j < i ==> buf@[j] == bytes@[j] as i8,
            forall|j: int| i <= j < 256 ==> buf@[j] == 0,
        decreases 255 - i,
    {
        buf[i] = bytes[i] as i8;
        i += 1;
    }
    assert(buf@ =~= field_of(s.spec_bytes(), 256));
    buf
}

/// Read a zero-terminated field of cells.
fn cells_to_string(cells: &[i8]) -> (r: String)
    ensures
        r@ == field_text(cells@),
{
    let mut out = String::new();
    let mut i: usize = 0;
    while i < cells.len() && cells[i] != 0
        invariant
            i <= cells.len(),
            forall|j: int| 0 <= j < i ==> cells@[j] != 0,
            out@ == Seq::new(i as nat, |j: int| (cells@[j] as u8) as char),
        decreases cells.len() - i,
    {
        let c = cells[i] as u8;
        out.push(c as char);
        i += 1;
        assert(out@ =~= Seq::new(i as nat, |j: int| (cells@[j] as u8) as char));
    }
    proof {
        lemma_field_len(cells@, i as nat);
        assert(out@ =~= field_text(cells@));
    }
    out
}

/// The text of a 34-cell field.
pub fn tw_str32_to_string(s: &TW_STR32) -> (r: String)
    ensures
        r@ == field_text(s@),
{
    cells_to_string(s.as_slice())
}

/// The text of a 256-cell field.
pub fn tw_str255_to_string(s: &TW_STR255) -> (r: String)
    ensures
        r@ == field_text(s@),
{
    cells_to_string(s.as_slice())
}

/// Law: a field gives back an ASCII string that has no NUL and leaves room for
/// the terminator.
pub proof fn law_field_round_trip(s: Seq<char>, size: nat)
    requires
        vstd::utf8::is_ascii_chars(s),
        forall|i: int| 0 <= i < s.len() ==> s[i] != '\0',
        s.len() < size,
    ensures
        field_text(field_of(vstd::utf8::encode_utf8(s), size)) == s,
{
    vstd::utf8::is_ascii_chars_encode_utf8(s);
    vstd::utf8::is_ascii_chars_nat_bound(s);
    let bytes = vstd::utf8::encode_utf8(s);
    let cells = field_of(bytes, size);
    assert(bytes.len() == s.len());
    assert forall|i: int| 0 <= i < s.len() implies cells[i] != 0 && (cells[i] as u8) as char
        == s[i] by {
        let b = bytes[i];
        assert(b == s[i] as u8);
        assert(s[i] != '\0');
        assert(b != 0 && b < 128);
        assert(b as i8 != 0 && (b as i8) as u8 == b) by (bit_vector)
            requires
                b != 0,
                b < 128,
        ;
    }
    lemma_field_len(cells, s.len());
    assert(field_text(cells) =~= s);
}

/// How the agent introduces itself to the data source manager under the given
/// product name.
pub open spec fn is_application_identity(id: TW_IDENTITY, product: &str) -> bool {
    &&& id.Id == 0
    &&& id.Version.MajorNum == 0
    &&& id.Version.MinorNum == 1
    &&& id.Version.Language == TWLG_ENGLISH_USA
    &&& id.Version.Country == TWCY_USA
    &&& id.Version.Info@ == field_of("0.1.0".spec_bytes(), 34)
    &&& id.ProtocolMajor == TWON_PROTOCOLMAJOR
    &&& id.ProtocolMinor == TWON_PROTOCOLMINOR
    &&& id.SupportedGroups == DG_CONTROL | DG_IMAGE
    &&& id.Manufacturer@ == field_of("RSWebTWAIN".spec_bytes(), 34)
    &&& id.ProductFamily@ == field_of("Scanner".spec_bytes(), 34)
    &&& id.ProductName@ == field_of(product.spec_bytes(), 34)
}

/// The application identity under a product name.
pub fn application_identity(product: &str) -> (id: TW_IDENTITY)
    ensures
        is_application_identity(id, product),
{
    TW_IDENTITY {
        Id: 0,
        Version: TW_VERSION {
            MajorNum: 0,
            MinorNum: 1,
            Language: TWLG_ENGLISH_USA,
            Country: TWCY_USA,
            Info: str_to_tw_str32("0.1.0"),
        },
        ProtocolMajor: TWON_PROTOCOLMAJOR,
        ProtocolMinor: TWON_PROTOCOLMINOR,
        SupportedGroups: DG_CONTROL | DG_IMAGE,
        Manufacturer: str_to_tw_str32("RSWebTWAIN"),
        ProductFamily: str_to_tw_str32("Scanner"),
        ProductName: str_to_tw_str32(product),
    }
}

/// Law: a resolution up to the largest that a fixed-point value can hold is held
/// exactly, as its whole part and without a fraction; a larger one becomes the
/// largest value there is.
pub proof fn law_resolutions_are_held(resolution: u32)
    ensures
        resolution <= 32767 ==> fix32_of(resolution).Whole == resolution && fix32_of(
            resolution,
        ).Frac == 0,
        resolution > 32767 ==> fix32_of(resolution).Whole == 32767 && fix32_of(resolution).Frac
            == 65535,
{
}

/// Law: the bits of a fixed-point value hold its whole part in the low half and its
/// fraction in the high half, so no two values share them.
pub proof fn law_fixed_point_bits_hold_both_parts(value: TW_FIX32)
    ensures
        value.bits() as int / 65536 == value.Frac,
        value.Whole >= 0 ==> value.bits() as int % 65536 == value.Whole,
        value.Whole < 0 ==> value.bits() as int % 65536 == value.Whole + 65536,
{
    let whole = value.Whole;
    assert(whole >= 0 ==> whole as u16 == whole) by (bit_vector);
    assert(whole < 0 ==> whole as u16 == whole + 65536) by (bit_vector);
}

/// Law: a field has its size, holds the bytes it was given cell by cell as far as
/// they fit before its last cell, and is zero beyond them.
pub proof fn law_fields_hold_their_bytes(bytes: Seq<u8>, size: nat)
    requires
        size > 0,
    ensures
        field_of(bytes, size).len() == size,
        forall|i: int|
            0 <= i < size - 1 && i < bytes.len() ==> #[trigger] field_of(bytes, size)[i] as u8
                == bytes[i],
        forall|i: int|
            0 <= i < size && (i >= bytes.len() || i == size - 1) ==> #[trigger] field_of(
                bytes,
                size,
            )[i] == 0,
{
    assert forall|i: int| 0 <= i < size - 1 && i < bytes.len() implies #[trigger] field_of(
        bytes,
        size,
    )[i] as u8 == bytes[i] by {
        let b = bytes[i];
        assert((b as i8) as u8 == b) by (bit_vector);
    }
}

/// Law: the text of a field reaches up to its first zero, and its characters are
/// those whose codes its cells are.
pub proof fn law_field_text_ends_at_the_first_zero(cells: Seq<i8>, n: nat)
    requires
        n <= cells.len(),
        forall|i: int| 0 <= i < n ==> cells[i] != 0,
        n < cells.len() ==> cells[n as int] == 0,
    ensures
        field_text(cells).len() == n,
        forall|i: int|
            0 <= i < n ==> (#[trigger] field_text(cells)[i]) as int == (cells[i] as u8) as int,
{
    lemma_field_len(cells, n);
}

/// Law: the agent introduces itself under the product name it was given, and as of
/// version 2.3 of the protocol, for control and for images.
pub proof fn law_agent_is_introduced(id: TW_IDENTITY, product: &str)
    requires
        is_application_identity(id, product),
        vstd::utf8::is_ascii_chars(product@),
        forall|i: int| 0 <= i < product@.len() ==> product@[i] != '\0',
        product@.len() < 34,
    ensures
        field_text(id.ProductName@) == product@,
        id.Id == 0,
        id.ProtocolMajor == 2,
        id.ProtocolMinor == 3,
        id.SupportedGroups == 3,
{
    law_field_round_trip(product@, 34);
    assert(DG_CONTROL | DG_IMAGE == 3) by (bit_vector);
}

} // verus!
