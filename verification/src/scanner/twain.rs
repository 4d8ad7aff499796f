//! The TWAIN session as a typestate machine.
//!
//! Each TWAIN state is a type of its own, and a transition consumes the state it
//! leaves, so an invalid transition does not compile. The methods decide; the
//! caller performs the operation on the data source manager and hands the reply
//! back.
//!
//! States:
//! 1. PreSession       - nothing loaded
//! 2. DsmLoaded        - manager library loaded, entry point resolved
//! 3. DsmOpened        - manager opened with MSG_OPENDSM
//! 4. SourceOpened     - data source opened with MSG_OPENDS
//! 5. SourceEnabled    - source enabled (scanning UI shown or suppressed)
//! 6. TransferReady    - source signals MSG_XFERREADY

use vstd::prelude::*;
use vstd::string::*;
use vstd::utf8::*;

use crate::scanner::twain_ffi::{
    application_identity, field_of, field_text, fix32_of, is_application_identity,
    law_field_round_trip, law_field_text_ends_at_the_first_zero,
    law_fixed_point_bits_hold_both_parts, law_resolutions_are_held, str_to_tw_str32,
    tw_str32_to_string, CAP_AUTOFEED, CAP_DUPLEXENABLED, CAP_FEEDERENABLED, CAP_XFERCOUNT,
    DAT_CAPABILITY, DAT_EVENT, DAT_IDENTITY, DAT_IMAGEINFO, DAT_IMAGEMEMXFER, DAT_PARENT,
    DAT_PENDINGXFERS, DAT_SETUPMEMXFER, DAT_STATUS, DAT_USERINTERFACE, DG_CONTROL, DG_IMAGE,
    ICAP_BITORDER, ICAP_COMPRESSION, ICAP_PIXELFLAVOR, ICAP_PIXELTYPE, ICAP_XFERMECH,
    ICAP_XRESOLUTION, ICAP_YRESOLUTION, MSG_CLOSEDS, MSG_CLOSEDSM, MSG_CLOSEDSOK, MSG_CLOSEDSREQ,
    MSG_DISABLEDS, MSG_ENABLEDS, MSG_ENDXFER, MSG_GET, MSG_GETDEFAULT, MSG_GETFIRST, MSG_GETNEXT,
    MSG_OPENDS, MSG_OPENDSM, MSG_PROCESSEVENT, MSG_RESET, MSG_SET, MSG_XFERREADY, TWBO_MSBFIRST,
    TWCC_BADCAP, TWCC_BADVALUE, TWCC_CAPBADOPERATION, TWCC_CAPUNSUPPORTED, TWCC_PAPERDOUBLEFEED,
    TWCC_PAPERJAM, TWCP_NONE, TWPF_CHOCOLATE, TWPT_BW, TWPT_GRAY, TWPT_RGB, TWRC_CANCEL,
    TWRC_DSEVENT, TWRC_SUCCESS, TWRC_XFERDONE, TWSX_MEMORY, TWTY_FIX32, TWTY_INT16, TWTY_UINT16,
    TW_FIX32, TW_IDENTITY, TW_IMAGEINFO, TW_ONEVALUE, TW_PENDINGXFERS, TW_SETUPMEMXFER,
};
use crate::text::{
    decimal, decimal_string, join, law_numerals_fill_their_width, law_numerals_read_back, numeral,
    push_decimal, push_numeral, reads_as, same_text,
};

verus! {

/// What can go wrong in a TWAIN session.
#[derive(Debug)]
pub enum TwainError {
    DsmLoadFailed(String),
    EntryPointNotFound,
    OperationFailed { dg: u32, dat: u16, msg: u16, rc: u16, cc: u16 },
    Cancelled,
    NoSources,
    PaperJam,
    PaperDoubleFeed,
    CapabilityNotSupported(u16),
    InvalidState,
    MemoryError,
    WindowCreationFailed(String),
}

pub type TwainResult<T> = Result<T, TwainError>;

impl TwainError {
    /// The words that describe this error.
    pub open spec fn text(self) -> Seq<char> {
        match self {
            TwainError::DsmLoadFailed(e) => "Failed to load TWAINDSM.dll: "@ + e@,
            TwainError::EntryPointNotFound => "DSM_Entry symbol not found in TWAINDSM.dll"@,
            TwainError::OperationFailed { dg, dat, msg, rc, cc } => "TWAIN operation failed: DG=0x"@
                + numeral(dg as nat, 16, 4) + " DAT=0x"@ + numeral(dat as nat, 16, 4) + " MSG=0x"@
                + numeral(msg as nat, 16, 4) + " RC="@ + decimal(rc as nat) + " CC="@ + decimal(
                cc as nat,
            ),
            TwainError::Cancelled => "TWAIN operation cancelled by user"@,
            TwainError::NoSources => "No TWAIN data sources available"@,
            TwainError::PaperJam => "Scanner paper jam detected"@,
            TwainError::PaperDoubleFeed => "Scanner paper double feed detected"@,
            TwainError::CapabilityNotSupported(cap) => "Capability not supported: 0x"@ + numeral(
                cap as nat,
                16,
                4,
            ),
            TwainError::InvalidState => "Invalid state transition"@,
            TwainError::MemoryError => "Memory allocation failed"@,
            TwainError::WindowCreationFailed(e) => "Hidden window creation failed: "@ + e@,
        }
    }

    /// Describe the error.
    pub fn message(&self) -> (s: String)
        ensures
            s@ == self.text(),
    {
        match self {
            TwainError::DsmLoadFailed(e) => join("Failed to load TWAINDSM.dll: ", e.as_str()),
            TwainError::EntryPointNotFound => {
                "DSM_Entry symbol not found in TWAINDSM.dll".to_owned()
            },
            TwainError::OperationFailed { dg, dat, msg, rc, cc } => {
                let mut s = "TWAIN operation failed: DG=0x".to_owned();
                push_numeral(&mut s, *dg as u64, 16, 4);
                s.append(" DAT=0x");
                push_numeral(&mut s, *dat as u64, 16, 4);
                s.append(" MSG=0x");
                push_numeral(&mut s, *msg as u64, 16, 4);
                s.append(" RC=");
                push_decimal(&mut s, *rc as u64);
                s.append(" CC=");
                push_decimal(&mut s, *cc as u64);
                s
            },
            TwainError::Cancelled => "TWAIN operation cancelled by user".to_owned(),
            TwainError::NoSources => "No TWAIN data sources available".to_owned(),
            TwainError::PaperJam => "Scanner paper jam detected".to_owned(),
            TwainError::PaperDoubleFeed => "Scanner paper double feed detected".to_owned(),
            TwainError::CapabilityNotSupported(cap) => {
                let mut s = "Capability not supported: 0x".to_owned();
                push_numeral(&mut s, *cap as u64, 16, 4);
                s
            },
            TwainError::InvalidState => "Invalid state transition".to_owned(),
            TwainError::MemoryError => "Memory allocation failed".to_owned(),
            TwainError::WindowCreationFailed(e) => join(
                "Hidden window creation failed: ",
                e.as_str(),
            ),
        }
    }
}

// ---------------------------------------------------------------------------
// Operations on the data source manager
// ---------------------------------------------------------------------------
/// What one call into the data source manager asks for.
#[derive(Debug, Clone, Copy, PartialEq, Eq, Structural)]
pub struct Triplet {
    pub dg: u32,
    pub dat: u16,
    pub msg: u16,
}

/// An operation of a session.
#[derive(Debug, Clone, Copy, PartialEq, Eq, Structural)]
pub enum Operation {
    OpenDsm,
    CloseDsm,
    FirstSource,
    NextSource,
    DefaultSource,
    OpenSource,
    CloseSource,
    SetCapability,
    EnableSource,
    DisableSource,
    ProcessEvent,
    ImageInfo,
    TransferSetup,
    MemoryTransfer,
    EndTransfer,
    ResetTransfers,
    GetStatus,
}

impl Operation {
    /// The triplet that names this operation.
    pub open spec fn spec_triplet(self) -> Triplet {
        match self {
            Operation::OpenDsm => Triplet { dg: DG_CONTROL, dat: DAT_PARENT, msg: MSG_OPENDSM },
            Operation::CloseDsm => Triplet { dg: DG_CONTROL, dat: DAT_PARENT, msg: MSG_CLOSEDSM },
            Operation::FirstSource => Triplet {
                dg: DG_CONTROL,
                dat: DAT_IDENTITY,
                msg: MSG_GETFIRST,
            },
            Operation::NextSource => Triplet {
                dg: DG_CONTROL,
                dat: DAT_IDENTITY,
                msg: MSG_GETNEXT,
            },
            Operation::DefaultSource => Triplet {
                dg: DG_CONTROL,
                dat: DAT_IDENTITY,
                msg: MSG_GETDEFAULT,
            },
            Operation::OpenSource => Triplet { dg: DG_CONTROL, dat: DAT_IDENTITY, msg: MSG_OPENDS },
            Operation::CloseSource => Triplet {
                dg: DG_CONTROL,
                dat: DAT_IDENTITY,
                msg: MSG_CLOSEDS,
            },
            Operation::SetCapability => Triplet {
                dg: DG_CONTROL,
                dat: DAT_CAPABILITY,
                msg: MSG_SET,
            },
            Operation::EnableSource => Triplet {
                dg: DG_CONTROL,
                dat: DAT_USERINTERFACE,
                msg: MSG_ENABLEDS,
            },
            Operation::DisableSource => Triplet {
                dg: DG_CONTROL,
                dat: DAT_USERINTERFACE,
                msg: MSG_DISABLEDS,
            },
            Operation::ProcessEvent => Triplet {
                dg: DG_CONTROL,
                dat: DAT_EVENT,
                msg: MSG_PROCESSEVENT,
            },
            Operation::ImageInfo => Triplet { dg: DG_IMAGE, dat: DAT_IMAGEINFO, msg: MSG_GET },
            Operation::TransferSetup => Triplet {
                dg: DG_CONTROL,
                dat: DAT_SETUPMEMXFER,
                msg: MSG_GET,
            },
            Operation::MemoryTransfer => Triplet {
                dg: DG_IMAGE,
                dat: DAT_IMAGEMEMXFER,
                msg: MSG_GET,
            },
            Operation::EndTransfer => Triplet {
                dg: DG_CONTROL,
                dat: DAT_PENDINGXFERS,
                msg: MSG_ENDXFER,
            },
            Operation::ResetTransfers => Triplet {
                dg: DG_CONTROL,
                dat: DAT_PENDINGXFERS,
                msg: MSG_RESET,
            },
            Operation::GetStatus => Triplet { dg: DG_CONTROL, dat: DAT_STATUS, msg: MSG_GET },
        }
    }

    pub fn triplet(self) -> (t: Triplet)
        ensures
            t == self.spec_triplet(),
    {
        let (dg, dat, msg): (u32, u16, u16) = match self {
            Operation::OpenDsm => (DG_CONTROL, DAT_PARENT, MSG_OPENDSM),
            Operation::CloseDsm => (DG_CONTROL, DAT_PARENT, MSG_CLOSEDSM),
            Operation::FirstSource => (DG_CONTROL, DAT_IDENTITY, MSG_GETFIRST),
            Operation::NextSource => (DG_CONTROL, DAT_IDENTITY, MSG_GETNEXT),
            Operation::DefaultSource => (DG_CONTROL, DAT_IDENTITY, MSG_GETDEFAULT),
            Operation::OpenSource => (DG_CONTROL, DAT_IDENTITY, MSG_OPENDS),
            Operation::CloseSource => (DG_CONTROL, DAT_IDENTITY, MSG_CLOSEDS),
            Operation::SetCapability => (DG_CONTROL, DAT_CAPABILITY, MSG_SET),
            Operation::EnableSource => (DG_CONTROL, DAT_USERINTERFACE, MSG_ENABLEDS),
            Operation::DisableSource => (DG_CONTROL, DAT_USERINTERFACE, MSG_DISABLEDS),
            Operation::ProcessEvent => (DG_CONTROL, DAT_EVENT, MSG_PROCESSEVENT),
            Operation::ImageInfo => (DG_IMAGE, DAT_IMAGEINFO, MSG_GET),
            Operation::TransferSetup => (DG_CONTROL, DAT_SETUPMEMXFER, MSG_GET),
            Operation::MemoryTransfer => (DG_IMAGE, DAT_IMAGEMEMXFER, MSG_GET),
            Operation::EndTransfer => (DG_CONTROL, DAT_PENDINGXFERS, MSG_ENDXFER),
            Operation::ResetTransfers => (DG_CONTROL, DAT_PENDINGXFERS, MSG_RESET),
            Operation::GetStatus => (DG_CONTROL, DAT_STATUS, MSG_GET),
        };
        Triplet { dg, dat, msg }
    }
}

/// What the manager answered: the return code, and the condition code that it
/// gives on request after a failure.
#[derive(Debug, Clone, Copy, PartialEq, Eq, Structural)]
pub struct DsmReply {
    pub rc: u16,
    pub cc: u16,
}

/// Whether the return code of an operation leaves the reason to be asked for with
/// `Operation::GetStatus`. Walking the sources and handing on a message go by the
/// return code alone, and the last strip of a page is no failure.
pub fn needs_condition(op: Operation, rc: u16) -> (r: bool)
    ensures
        r == (rc != TWRC_SUCCESS && rc != TWRC_CANCEL && !(op is FirstSource || op is NextSource
            || op is ProcessEvent || op is GetStatus) && !(op is MemoryTransfer && rc
            == TWRC_XFERDONE)),
{
    let failed = match op {
        Operation::FirstSource
        | Operation::NextSource
        | Operation::ProcessEvent
        | Operation::GetStatus => false,
        Operation::MemoryTransfer => rc != TWRC_XFERDONE,
        _ => true,
    };
    failed && rc != TWRC_SUCCESS && rc != TWRC_CANCEL
}

/// The error that an unsuccessful reply to an operation stands for.
pub open spec fn failure(op: Operation, reply: DsmReply) -> TwainError {
    if reply.rc == TWRC_CANCEL {
        TwainError::Cancelled
    } else if reply.cc == TWCC_PAPERJAM {
        TwainError::PaperJam
    } else if reply.cc == TWCC_PAPERDOUBLEFEED {
        TwainError::PaperDoubleFeed
    } else if reply.cc == TWCC_CAPUNSUPPORTED {
        TwainError::CapabilityNotSupported(op.spec_triplet().dat)
    } else {
        TwainError::OperationFailed {
            dg: op.spec_triplet().dg,
            dat: op.spec_triplet().dat,
            msg: op.spec_triplet().msg,
            rc: reply.rc,
            cc: reply.cc,
        }
    }
}

/// The error that an unsuccessful reply to an operation stands for.
pub fn failed_call(op: Operation, reply: DsmReply) -> (e: TwainError)
    ensures
        e == failure(op, reply),
{
    if reply.rc == TWRC_CANCEL {
        return TwainError::Cancelled;
    }
    let t = op.triplet();
    if reply.cc == TWCC_PAPERJAM {
        TwainError::PaperJam
    } else if reply.cc == TWCC_PAPERDOUBLEFEED {
        TwainError::PaperDoubleFeed
    } else if reply.cc == TWCC_CAPUNSUPPORTED {
        TwainError::CapabilityNotSupported(t.dat)
    } else {
        TwainError::OperationFailed {
            dg: t.dg,
            dat: t.dat,
            msg: t.msg,
            rc: reply.rc,
            cc: reply.cc,
        }
    }
}

/// Turn a reply into success or the error that it stands for.
pub fn call_checked(op: Operation, reply: DsmReply) -> (r: TwainResult<()>)
    ensures
        r == (if reply.rc == TWRC_SUCCESS {
            Ok::<(), TwainError>(())
        } else {
            Err(failure(op, reply))
        }),
{
    if reply.rc == TWRC_SUCCESS {
        Ok(())
    } else {
        Err(failed_call(op, reply))
    }
}

// ---------------------------------------------------------------------------
// Sources and options
// ---------------------------------------------------------------------------
/// A data source, as the rest of the agent sees it.
#[derive(Debug)]
pub struct SourceInfo {
    pub id: u32,
    pub name: String,
    pub manufacturer: String,
    pub product_family: String,
    pub version: String,
}

impl SourceInfo {
    /// Whether this describes the source that `id` identifies.
    pub open spec fn describes(self, id: TW_IDENTITY) -> bool {
        &&& self.id == id.Id
        &&& self.name@ == field_text(id.ProductName@)
        &&& self.manufacturer@ == field_text(id.Manufacturer@)
        &&& self.product_family@ == field_text(id.ProductFamily@)
        &&& self.version@ == decimal(id.Version.MajorNum as nat) + "."@ + decimal(
            id.Version.MinorNum as nat,
        )
    }

    /// Describe an identified source.
    pub fn from_identity(id: &TW_IDENTITY) -> (r: SourceInfo)
        ensures
            r.describes(*id),
    {
        let mut version = decimal_string(id.Version.MajorNum as u64);
        version.append(".");
        push_decimal(&mut version, id.Version.MinorNum as u64);
        SourceInfo {
            id: id.Id,
            name: tw_str32_to_string(&id.ProductName),
            manufacturer: tw_str32_to_string(&id.Manufacturer),
            product_family: tw_str32_to_string(&id.ProductFamily),
            version,
        }
    }
}

#[derive(Debug, Clone, Copy, PartialEq, Eq, Structural)]
pub enum ColorMode {
    Color,
    Grayscale,
    BlackWhite,
}

impl ColorMode {
    /// The TWAIN pixel type that this mode asks for.
    pub open spec fn pixel_type(self) -> u16 {
        match self {
            ColorMode::BlackWhite => TWPT_BW,
            ColorMode::Grayscale => TWPT_GRAY,
            ColorMode::Color => TWPT_RGB,
        }
    }

    pub fn to_twain_pixel_type(self) -> (r: u16)
        ensures
            r == self.pixel_type(),
    {
        match self {
            ColorMode::BlackWhite => TWPT_BW,
            ColorMode::Grayscale => TWPT_GRAY,
            ColorMode::Color => TWPT_RGB,
        }
    }

    /// The name under which clients and the sidecar know this mode.
    pub open spec fn spec_name(self) -> Seq<char> {
        match self {
            ColorMode::Color => "color"@,
            ColorMode::Grayscale => "grayscale"@,
            ColorMode::BlackWhite => "bw"@,
        }
    }

    pub fn name(self) -> (s: String)
        ensures
            s@ == self.spec_name(),
    {
        match self {
            ColorMode::Color => "color".to_owned(),
            ColorMode::Grayscale => "grayscale".to_owned(),
            ColorMode::BlackWhite => "bw".to_owned(),
        }
    }
}

/// What a scan is asked to do.
#[derive(Debug, Clone, Copy)]
pub struct ScanOptions {
    pub resolution: u32,
    pub color_mode: ColorMode,
    pub duplex: bool,
    pub use_adf: bool,
    pub show_scanner_ui: bool,
}

impl Default for ScanOptions {
    fn default() -> (r: Self)
        ensures
            r.resolution == 300,
            r.color_mode == ColorMode::Color,
            !r.duplex,
            !r.use_adf,
            !r.show_scanner_ui,
    {
        ScanOptions {
            resolution: 300,
            color_mode: ColorMode::Color,
            duplex: false,
            use_adf: false,
            show_scanner_ui: false,
        }
    }
}

// ---------------------------------------------------------------------------
// Capability negotiation
// ---------------------------------------------------------------------------
/// One capability and the single value it is set to.
#[derive(Debug, Clone, Copy, PartialEq, Eq, Structural)]
pub struct CapabilitySetting {
    pub cap: u16,
    pub value: TW_ONEVALUE,
}

pub open spec fn u16_setting(cap: u16, value: u16) -> CapabilitySetting {
    CapabilitySetting { cap, value: TW_ONEVALUE { ItemType: TWTY_UINT16, Item: value as u32 } }
}

pub open spec fn i16_setting(cap: u16, value: i16) -> CapabilitySetting {
    CapabilitySetting {
        cap,
        value: TW_ONEVALUE { ItemType: TWTY_INT16, Item: (value as u16) as u32 },
    }
}

pub open spec fn fix32_setting(cap: u16, value: TW_FIX32) -> CapabilitySetting {
    CapabilitySetting { cap, value: TW_ONEVALUE { ItemType: TWTY_FIX32, Item: value.bits() } }
}

pub fn set_capability_u16(cap: u16, value: u16) -> (r: CapabilitySetting)
    ensures
        r == u16_setting(cap, value),
{
    CapabilitySetting { cap, value: TW_ONEVALUE { ItemType: TWTY_UINT16, Item: value as u32 } }
}

pub fn set_capability_bool(cap: u16, value: bool) -> (r: CapabilitySetting)
    ensures
        r == u16_setting(cap, if value { 1 } else { 0 }),
{
    set_capability_u16(
        cap,
        if value {
            1
        } else {
            0
        },
    )
}

pub fn set_capability_i16(cap: u16, value: i16) -> (r: CapabilitySetting)
    ensures
        r == i16_setting(cap, value),
{
    CapabilitySetting {
        cap,
        value: TW_ONEVALUE { ItemType: TWTY_INT16, Item: (value as u16) as u32 },
    }
}

pub fn set_capability_fix32(cap: u16, value: TW_FIX32) -> (r: CapabilitySetting)
    ensures
        r == fix32_setting(cap, value),
{
    CapabilitySetting { cap, value: TW_ONEVALUE { ItemType: TWTY_FIX32, Item: value.to_item() } }
}

/// The capabilities that every scan fixes: pixel type, resolution, and the
/// layout of the transferred bits that decoding relies on.
pub open spec fn fixed_settings(pixel_type: u16, resolution: u32) -> Seq<CapabilitySetting> {
    seq![
        u16_setting(ICAP_PIXELTYPE, pixel_type),
        fix32_setting(ICAP_XRESOLUTION, fix32_of(resolution)),
        fix32_setting(ICAP_YRESOLUTION, fix32_of(resolution)),
        u16_setting(ICAP_XFERMECH, TWSX_MEMORY),
        u16_setting(ICAP_COMPRESSION, TWCP_NONE),
        u16_setting(ICAP_PIXELFLAVOR, TWPF_CHOCOLATE),
        u16_setting(ICAP_BITORDER, TWBO_MSBFIRST),
    ]
}

/// The feeder: every page in it (a transfer count of -1), or a single page.
pub open spec fn feeder_settings(use_adf: bool) -> Seq<CapabilitySetting> {
    if use_adf {
        seq![
            u16_setting(CAP_FEEDERENABLED, 1),
            u16_setting(CAP_AUTOFEED, 1),
            i16_setting(CAP_XFERCOUNT, -1i16),
        ]
    } else {
        seq![i16_setting(CAP_XFERCOUNT, 1)]
    }
}

pub open spec fn duplex_settings(duplex: bool) -> Seq<CapabilitySetting> {
    if duplex {
        seq![u16_setting(CAP_DUPLEXENABLED, 1)]
    } else {
        Seq::empty()
    }
}

/// Everything a scan negotiates, in order.
pub open spec fn capability_plan(
    pixel_type: u16,
    resolution: u32,
    duplex: bool,
    use_adf: bool,
) -> Seq<CapabilitySetting> {
    fixed_settings(pixel_type, resolution) + feeder_settings(use_adf) + duplex_settings(duplex)
}

/// Whether a request asks for what this capability sets: its color mode, its
/// resolution, the feeder or duplex.
pub open spec fn is_requested(cap: u16) -> bool {
    ||| cap == ICAP_PIXELTYPE
    ||| cap == ICAP_XRESOLUTION
    ||| cap == ICAP_YRESOLUTION
    ||| cap == CAP_FEEDERENABLED
    ||| cap == CAP_DUPLEXENABLED
}

/// Whether a source says that it has no such capability, or not with that value.
pub open spec fn is_rejection(reply: DsmReply) -> bool {
    &&& reply.rc != TWRC_SUCCESS
    &&& reply.rc != TWRC_CANCEL
    &&& {
        ||| reply.cc == TWCC_CAPUNSUPPORTED
        ||| reply.cc == TWCC_BADCAP
        ||| reply.cc == TWCC_BADVALUE
        ||| reply.cc == TWCC_CAPBADOPERATION
    }
}

/// What the reply to setting a capability comes to: a source that rejects what the
/// request asks for cannot be scanned from. One that does not take anything else
/// keeps its own value.
pub fn check_capability(setting: &CapabilitySetting, reply: DsmReply) -> (r: TwainResult<()>)
    ensures
        r == (if is_requested(setting.cap) && is_rejection(reply) {
            Err(TwainError::CapabilityNotSupported(setting.cap))
        } else {
            Ok::<(), TwainError>(())
        }),
{
    let cap = setting.cap;
    let requested = cap == ICAP_PIXELTYPE || cap == ICAP_XRESOLUTION || cap == ICAP_YRESOLUTION
        || cap == CAP_FEEDERENABLED || cap == CAP_DUPLEXENABLED;
    let rejected = reply.rc != TWRC_SUCCESS && reply.rc != TWRC_CANCEL && (reply.cc
        == TWCC_CAPUNSUPPORTED || reply.cc == TWCC_BADCAP || reply.cc == TWCC_BADVALUE || reply.cc
        == TWCC_CAPBADOPERATION);
    if requested && rejected {
        Err(TwainError::CapabilityNotSupported(cap))
    } else {
        Ok(())
    }
}

/// The capability settings of one scan, in the order they are sent.
pub fn scan_capabilities(pixel_type: u16, resolution: u32, duplex: bool, use_adf: bool) -> (r: Vec<
    CapabilitySetting,
>)
    ensures
        r@ == capability_plan(pixel_type, resolution, duplex, use_adf),
{
    let mut plan: Vec<CapabilitySetting> = Vec::new();
    plan.push(set_capability_u16(ICAP_PIXELTYPE, pixel_type));
    let dpi = TW_FIX32::from_resolution(resolution);
    plan.push(set_capability_fix32(ICAP_XRESOLUTION, dpi));
    plan.push(set_capability_fix32(ICAP_YRESOLUTION, dpi));
    plan.push(set_capability_u16(ICAP_XFERMECH, TWSX_MEMORY));
    plan.push(set_capability_u16(ICAP_COMPRESSION, TWCP_NONE));
    plan.push(set_capability_u16(ICAP_PIXELFLAVOR, TWPF_CHOCOLATE));
    plan.push(set_capability_u16(ICAP_BITORDER, TWBO_MSBFIRST));
    assert(plan@ =~= fixed_settings(pixel_type, resolution));
    if use_adf {
        plan.push(set_capability_bool(CAP_FEEDERENABLED, true));
        plan.push(set_capability_bool(CAP_AUTOFEED, true));
        plan.push(set_capability_i16(CAP_XFERCOUNT, -1i16));
    } else {
        plan.push(set_capability_i16(CAP_XFERCOUNT, 1));
    }
    assert(plan@ =~= fixed_settings(pixel_type, resolution) + feeder_settings(use_adf));
    if duplex {
        plan.push(set_capability_bool(CAP_DUPLEXENABLED, true));
    }
    assert(plan@ =~= capability_plan(pixel_type, resolution, duplex, use_adf));
    plan
}

/// Law: whatever the options, every assumption that decoding makes about the
/// transferred bits is negotiated.
pub proof fn law_plan_pins_decoding(pixel_type: u16, resolution: u32, duplex: bool, use_adf: bool)
    ensures
        capability_plan(pixel_type, resolution, duplex, use_adf).contains(
            u16_setting(ICAP_XFERMECH, TWSX_MEMORY),
        ),
        capability_plan(pixel_type, resolution, duplex, use_adf).contains(
            u16_setting(ICAP_COMPRESSION, TWCP_NONE),
        ),
        capability_plan(pixel_type, resolution, duplex, use_adf).contains(
            u16_setting(ICAP_PIXELFLAVOR, TWPF_CHOCOLATE),
        ),
        capability_plan(pixel_type, resolution, duplex, use_adf).contains(
            u16_setting(ICAP_BITORDER, TWBO_MSBFIRST),
        ),
{
    let plan = capability_plan(pixel_type, resolution, duplex, use_adf);
    assert(plan[3] == u16_setting(ICAP_XFERMECH, TWSX_MEMORY));
    assert(plan[4] == u16_setting(ICAP_COMPRESSION, TWCP_NONE));
    assert(plan[5] == u16_setting(ICAP_PIXELFLAVOR, TWPF_CHOCOLATE));
    assert(plan[6] == u16_setting(ICAP_BITORDER, TWBO_MSBFIRST));
}

// ---------------------------------------------------------------------------
// Scanned page data
// ---------------------------------------------------------------------------
/// A page as the source transferred it.
#[derive(Debug)]
pub struct ScannedPage {
    pub page_number: u32,
    pub width: u32,
    pub height: u32,
    pub bits_per_pixel: u16,
    pub x_resolution: TW_FIX32,
    pub y_resolution: TW_FIX32,
    /// Stride of `data`, as the source reported it.
    pub bytes_per_row: u32,
    pub data: Vec<u8>,
}

/// The strips of one page, collected as they come in.
pub struct PageTransfer {
    info: TW_IMAGEINFO,
    bytes_per_row: u32,
    data: Vec<u8>,
}

/// Whether a memory transfer that answered `rc` filled the buffer.
pub open spec fn strip_delivered(rc: u16) -> bool {
    rc == TWRC_SUCCESS || rc == TWRC_XFERDONE
}

/// Whether `p` is the page that `transfer` collected, not numbered yet.
pub open spec fn page_of(p: ScannedPage, transfer: PageTransfer) -> bool {
    &&& p.page_number == 0
    &&& p.width == transfer.spec_info().ImageWidth as u32
    &&& p.height == transfer.spec_info().ImageLength as u32
    &&& p.bits_per_pixel == transfer.spec_info().BitsPerPixel as u16
    &&& p.x_resolution == transfer.spec_info().XResolution
    &&& p.y_resolution == transfer.spec_info().YResolution
    &&& p.bytes_per_row == transfer.stride()
    &&& p.data@ == transfer.collected()
}

impl PageTransfer {
    pub closed spec fn spec_info(self) -> TW_IMAGEINFO {
        self.info
    }

    pub closed spec fn stride(self) -> u32 {
        self.bytes_per_row
    }

    /// The bytes collected so far.
    pub closed spec fn collected(self) -> Seq<u8> {
        self.data@
    }

    /// Start collecting a page that the source described as `info`.
    pub fn begin(info: TW_IMAGEINFO) -> (t: PageTransfer)
        ensures
            t.spec_info() == info,
            t.stride() == 0,
            t.collected() == Seq::<u8>::empty(),
    {
        PageTransfer { info, bytes_per_row: 0, data: Vec::new() }
    }

    /// Take in one strip; whether it was the last. A strip that the source could
    /// not deliver is an error, for the reason that it gives.
    pub fn strip(
        &mut self,
        reply: DsmReply,
        bytes_per_row: u32,
        bytes_written: u32,
        buffer: &Vec<u8>,
    ) -> (last: TwainResult<bool>)
        requires
            strip_delivered(reply.rc) ==> bytes_written <= buffer@.len(),
        ensures
            final(self).spec_info() == old(self).spec_info(),
            if strip_delivered(reply.rc) {
                &&& last == Ok::<bool, TwainError>(reply.rc == TWRC_XFERDONE)
                &&& final(self).stride() == bytes_per_row
                &&& final(self).collected() == old(self).collected() + buffer@.take(
                    bytes_written as int,
                )
            } else {
                &&& last == Err::<bool, TwainError>(failure(Operation::MemoryTransfer, reply))
                &&& *final(self) == *old(self)
            },
    {
        if reply.rc == TWRC_SUCCESS || reply.rc == TWRC_XFERDONE {
            self.bytes_per_row = bytes_per_row;
            let written = vstd::slice::slice_subrange(
                buffer.as_slice(),
                0,
                bytes_written as usize,
            );
            self.data.extend_from_slice(written);
            proof {
                assert(written@ =~= buffer@.take(bytes_written as int));
            }
            Ok(reply.rc == TWRC_XFERDONE)
        } else {
            Err(failed_call(Operation::MemoryTransfer, reply))
        }
    }

    /// The page, once its last strip is in. Numbering pages is up to the caller.
    pub fn page(self) -> (p: ScannedPage)
        ensures
            page_of(p, self),
    {
        ScannedPage {
            page_number: 0,
            width: self.info.ImageWidth as u32,
            height: self.info.ImageLength as u32,
            bits_per_pixel: self.info.BitsPerPixel as u16,
            x_resolution: self.info.XResolution,
            y_resolution: self.info.YResolution,
            bytes_per_row: self.bytes_per_row,
            data: self.data,
        }
    }
}

// ---------------------------------------------------------------------------
// State 1: PreSession - nothing loaded
// ---------------------------------------------------------------------------
/// Why the manager library could not be used.
#[derive(Debug)]
pub enum LoadFailure {
    /// The library itself did not load.
    Library(String),
    /// It holds no entry point.
    EntryPoint(String),
}

pub struct PreSession;

impl Default for PreSession {
    fn default() -> (r: Self)
        ensures
            r == PreSession,
    {
        PreSession
    }
}

impl PreSession {
    pub fn new() -> (r: Self)
        ensures
            r == PreSession,
    {
        PreSession
    }

    /// Enter state 2, given how loading the manager library went. The session
    /// introduces itself as this product.
    pub fn load_dsm(self, loaded: Result<(), LoadFailure>) -> (r: TwainResult<DsmLoaded>)
        ensures
            match loaded {
                Ok(()) => r matches Ok(dsm) && is_application_identity(
                    dsm.spec_app_identity(),
                    "RSWebTWAIN",
                ),
                Err(LoadFailure::Library(e)) => r == Err::<DsmLoaded, TwainError>(
                    TwainError::DsmLoadFailed(e),
                ),
                Err(LoadFailure::EntryPoint(_)) => r == Err::<DsmLoaded, TwainError>(
                    TwainError::EntryPointNotFound,
                ),
            },
    {
        match loaded {
            Ok(()) => Ok(DsmLoaded { app_identity: application_identity("RSWebTWAIN") }),
            Err(LoadFailure::Library(e)) => Err(TwainError::DsmLoadFailed(e)),
            Err(LoadFailure::EntryPoint(_)) => Err(TwainError::EntryPointNotFound),
        }
    }
}

/// The handle of the hidden window, given how creating it went.
pub fn create_hidden_hwnd(created: Result<isize, String>) -> (r: TwainResult<isize>)
    ensures
        r == (match created {
            Ok(hwnd) => Ok::<isize, TwainError>(hwnd),
            Err(e) => Err(TwainError::WindowCreationFailed(e)),
        }),
{
    match created {
        Ok(hwnd) => Ok(hwnd),
        Err(e) => Err(TwainError::WindowCreationFailed(e)),
    }
}

/// What a session carries through its states once the manager is open.
#[derive(Debug, Clone, Copy)]
pub struct Session {
    /// The window of the message pump.
    pub hwnd: isize,
    /// How the session introduced itself.
    pub app_identity: TW_IDENTITY,
}

// ---------------------------------------------------------------------------
// State 2: DsmLoaded - manager library loaded
// ---------------------------------------------------------------------------
pub struct DsmLoaded {
    app_identity: TW_IDENTITY,
}

impl DsmLoaded {
    pub closed spec fn spec_app_identity(self) -> TW_IDENTITY {
        self.app_identity
    }

    /// How the session introduces itself.
    pub fn app_identity(&self) -> (id: TW_IDENTITY)
        ensures
            id == self.spec_app_identity(),
    {
        self.app_identity
    }

    /// Open the manager (transition to state 3). `hwnd` is a hidden
    /// message-only window for the message pump.
    pub fn open_dsm(self, hwnd: isize, reply: DsmReply) -> (r: TwainResult<DsmOpened>)
        ensures
            match r {
                Ok(dsm) => reply.rc == TWRC_SUCCESS && dsm.spec_session() == (Session {
                    hwnd,
                    app_identity: self.spec_app_identity(),
                }),
                Err(e) => reply.rc != TWRC_SUCCESS && e == failure(Operation::OpenDsm, reply),
            },
    {
        match call_checked(Operation::OpenDsm, reply) {
            Ok(()) => Ok(
                DsmOpened { session: Session { hwnd, app_identity: self.app_identity } },
            ),
            Err(e) => Err(e),
        }
    }
}

// ---------------------------------------------------------------------------
// State 3: DsmOpened - manager open, sources can be enumerated and opened
// ---------------------------------------------------------------------------
pub struct DsmOpened {
    session: Session,
}

/// Whether `i` is the first of `sources` with that name.
pub open spec fn first_named(sources: Seq<SourceInfo>, name: Seq<char>, i: int) -> bool {
    &&& 0 <= i < sources.len()
    &&& sources[i].name@ == name
    &&& forall|j: int| 0 <= j < i ==> (#[trigger] sources[j]).name@ != name
}

/// Whether nothing of an identity is filled in but its id and product name.
pub open spec fn only_named(id: TW_IDENTITY) -> bool {
    &&& id.Version.MajorNum == 0
    &&& id.Version.MinorNum == 0
    &&& id.Version.Language == 0
    &&& id.Version.Country == 0
    &&& forall|k: int| 0 <= k < 34 ==> id.Version.Info@[k] == 0
    &&& id.ProtocolMajor == 0
    &&& id.ProtocolMinor == 0
    &&& id.SupportedGroups == 0
    &&& forall|k: int| 0 <= k < 34 ==> id.Manufacturer@[k] == 0
    &&& forall|k: int| 0 <= k < 34 ==> id.ProductFamily@[k] == 0
}

impl DsmOpened {
    pub closed spec fn spec_session(self) -> Session {
        self.session
    }

    pub fn session(&self) -> (r: Session)
        ensures
            r == self.spec_session(),
    {
        self.session
    }

    /// Take in one answer of the manager, which is asked for its first source and
    /// then, as long as it names one, for the next; whether it named one.
    pub fn list_sources(
        &self,
        listed: Vec<SourceInfo>,
        identity: &TW_IDENTITY,
        reply: DsmReply,
    ) -> (r: (Vec<SourceInfo>, bool))
        ensures
            r.1 == (reply.rc == TWRC_SUCCESS),
            if r.1 {
                &&& r.0@.len() == listed@.len() + 1
                &&& r.0@.drop_last() == listed@
                &&& r.0@.last().describes(*identity)
            } else {
                r.0 == listed
            },
    {
        let mut sources = listed;
        if reply.rc != TWRC_SUCCESS {
            return (sources, false);
        }
        sources.push(SourceInfo::from_identity(identity));
        proof {
            assert(sources@.drop_last() =~= listed@);
        }
        (sources, true)
    }

    /// The identity to open for a source name: the first listed source with
    /// that name, by its id and name alone.
    pub fn select_source(&self, sources: &Vec<SourceInfo>, source_name: &str) -> (r: TwainResult<
        TW_IDENTITY,
    >)
        ensures
            match r {
                Ok(id) => only_named(id) && exists|i: int|
                    {
                        &&& first_named(sources@, source_name@, i)
                        &&& id.Id == sources@[i].id
                        &&& id.ProductName@ == field_of(encode_utf8(source_name@), 34)
                    },
                Err(e) => e == TwainError::NoSources && forall|i: int|
                    0 <= i < sources@.len() ==> (#[trigger] sources@[i]).name@ != source_name@,
            },
    {
        let mut i: usize = 0;
        while i < sources.len()
            invariant
                i <= sources.len(),
                forall|j: int| 0 <= j < i ==> (#[trigger] sources@[j]).name@ != source_name@,
            decreases sources.len() - i,
        {
            if same_text(sources[i].name.as_str(), source_name) {
                let mut id = TW_IDENTITY::default();
                id.Id = sources[i].id;
                id.ProductName = str_to_tw_str32(source_name);
                assert(first_named(sources@, source_name@, i as int));
                return Ok(id);
            }
            i += 1;
        }
        Err(TwainError::NoSources)
    }

    /// Open a source (transition to state 4). The manager may have filled in
    /// `identity` while opening it.
    pub fn open_source(self, identity: TW_IDENTITY, reply: DsmReply) -> (r: TwainResult<
        SourceOpened,
    >)
        ensures
            match r {
                Ok(source) => reply.rc == TWRC_SUCCESS && source.spec_session()
                    == self.spec_session() && source.spec_identity() == identity,
                Err(e) => reply.rc != TWRC_SUCCESS && e == failure(Operation::OpenSource, reply),
            },
    {
        match call_checked(Operation::OpenSource, reply) {
            Ok(()) => Ok(SourceOpened { session: self.session, source_identity: identity }),
            Err(e) => Err(e),
        }
    }

    /// The identity of the default source, given the manager's answer.
    pub fn get_default_source(&self, identity: TW_IDENTITY, reply: DsmReply) -> (r: TwainResult<
        TW_IDENTITY,
    >)
        ensures
            r == (if reply.rc == TWRC_SUCCESS {
                Ok::<TW_IDENTITY, TwainError>(identity)
            } else {
                Err(failure(Operation::DefaultSource, reply))
            }),
    {
        match call_checked(Operation::DefaultSource, reply) {
            Ok(()) => Ok(identity),
            Err(e) => Err(e),
        }
    }

    /// Open the default source (transition to state 4), given its identity, or why
    /// there is none, and the manager's answer.
    pub fn open_default_source(
        self,
        default: TwainResult<TW_IDENTITY>,
        identity: TW_IDENTITY,
        reply: DsmReply,
    ) -> (r: TwainResult<SourceOpened>)
        ensures
            match (default, r) {
                (Err(missing), r) => r == Err::<SourceOpened, TwainError>(missing),
                (Ok(_), Ok(source)) => reply.rc == TWRC_SUCCESS && source.spec_session()
                    == self.spec_session() && source.spec_identity() == identity,
                (Ok(_), Err(e)) => reply.rc != TWRC_SUCCESS && e == failure(
                    Operation::OpenSource,
                    reply,
                ),
            },
    {
        match default {
            Err(missing) => Err(missing),
            Ok(_) => self.open_source(identity, reply),
        }
    }

    /// Close the manager (transition back to state 2).
    pub fn close_dsm(self, reply: DsmReply) -> (r: TwainResult<DsmLoaded>)
        ensures
            match r {
                Ok(dsm) => reply.rc == TWRC_SUCCESS && dsm.spec_app_identity()
                    == self.spec_session().app_identity,
                Err(e) => reply.rc != TWRC_SUCCESS && e == failure(Operation::CloseDsm, reply),
            },
    {
        match call_checked(Operation::CloseDsm, reply) {
            Ok(()) => Ok(DsmLoaded { app_identity: self.session.app_identity }),
            Err(e) => Err(e),
        }
    }
}

// ---------------------------------------------------------------------------
// State 4: SourceOpened - source open, capabilities can be negotiated
// ---------------------------------------------------------------------------
pub struct SourceOpened {
    session: Session,
    source_identity: TW_IDENTITY,
}

impl SourceOpened {
    pub closed spec fn spec_session(self) -> Session {
        self.session
    }

    pub closed spec fn spec_identity(self) -> TW_IDENTITY {
        self.source_identity
    }

    pub fn session(&self) -> (r: Session)
        ensures
            r == self.spec_session(),
    {
        self.session
    }

    pub fn identity(&self) -> (r: TW_IDENTITY)
        ensures
            r == self.spec_identity(),
    {
        self.source_identity
    }

    /// The capabilities to set for these options (resolution, color mode,
    /// duplex, feeder), in order.
    pub fn configure(&self, options: &ScanOptions) -> (r: Vec<CapabilitySetting>)
        ensures
            r@ == capability_plan(
                options.color_mode.pixel_type(),
                options.resolution,
                options.duplex,
                options.use_adf,
            ),
    {
        scan_capabilities(
            options.color_mode.to_twain_pixel_type(),
            options.resolution,
            options.duplex,
            options.use_adf,
        )
    }

    /// Enable the source (transition to state 5).
    pub fn enable(self, reply: DsmReply) -> (r: TwainResult<SourceEnabled>)
        ensures
            match r {
                Ok(source) => reply.rc == TWRC_SUCCESS && source.spec_session()
                    == self.spec_session() && source.spec_identity() == self.spec_identity(),
                Err(e) => reply.rc != TWRC_SUCCESS && e == failure(Operation::EnableSource, reply),
            },
    {
        match call_checked(Operation::EnableSource, reply) {
            Ok(()) => Ok(
                SourceEnabled { session: self.session, source_identity: self.source_identity },
            ),
            Err(e) => Err(e),
        }
    }

    /// Close the source without scanning (transition back to state 3).
    pub fn close(self, reply: DsmReply) -> (r: TwainResult<DsmOpened>)
        ensures
            match r {
                Ok(dsm) => reply.rc == TWRC_SUCCESS && dsm.spec_session() == self.spec_session(),
                Err(e) => reply.rc != TWRC_SUCCESS && e == failure(Operation::CloseSource, reply),
            },
    {
        match call_checked(Operation::CloseSource, reply) {
            Ok(()) => Ok(DsmOpened { session: self.session }),
            Err(e) => Err(e),
        }
    }
}

// ---------------------------------------------------------------------------
// State 5: SourceEnabled - waiting for MSG_XFERREADY
// ---------------------------------------------------------------------------
pub struct SourceEnabled {
    session: Session,
    source_identity: TW_IDENTITY,
}

/// What one turn of the message pump came upon.
#[derive(Debug, Clone, Copy, PartialEq, Eq, Structural)]
pub enum PumpEvent {
    /// The scan was cancelled.
    Cancelled,
    /// No message was waiting.
    Idle,
    /// A message was handed to the source: its return code, and the TWAIN
    /// message that it carried.
    Processed { rc: u16, message: u16 },
}

/// What to do after one turn of the message pump.
#[derive(Debug, Clone, Copy, PartialEq, Eq, Structural)]
pub enum PumpStep {
    /// Pages are ready to be transferred.
    Ready,
    /// Disable the source and stop waiting.
    Disable,
    /// Sleep, and look again.
    Sleep,
    /// The message was not for the source: dispatch it, and look again.
    Dispatch,
    /// The source handled the message: look again.
    Again,
}

pub open spec fn spec_pump_step(event: PumpEvent) -> PumpStep {
    match event {
        PumpEvent::Cancelled => PumpStep::Disable,
        PumpEvent::Idle => PumpStep::Sleep,
        PumpEvent::Processed { rc, message } => if rc != TWRC_DSEVENT {
            PumpStep::Dispatch
        } else if message == MSG_XFERREADY {
            PumpStep::Ready
        } else if message == MSG_CLOSEDSREQ || message == MSG_CLOSEDSOK {
            PumpStep::Disable
        } else {
            PumpStep::Again
        },
    }
}

/// One decision of the message pump.
pub fn pump_step(event: PumpEvent) -> (r: PumpStep)
    ensures
        r == spec_pump_step(event),
{
    match event {
        PumpEvent::Cancelled => PumpStep::Disable,
        PumpEvent::Idle => PumpStep::Sleep,
        PumpEvent::Processed { rc, message } => if rc != TWRC_DSEVENT {
            PumpStep::Dispatch
        } else if message == MSG_XFERREADY {
            PumpStep::Ready
        } else if message == MSG_CLOSEDSREQ || message == MSG_CLOSEDSOK {
            PumpStep::Disable
        } else {
            PumpStep::Again
        },
    }
}

/// Where a turn of the message pump leaves the session.
pub enum WaitResult {
    TransferReady(TransferReady),
    /// The source is to be disabled.
    CloseRequested(SourceEnabled),
    /// Still waiting, after this step.
    Waiting(SourceEnabled, PumpStep),
}

impl SourceEnabled {
    pub closed spec fn spec_session(self) -> Session {
        self.session
    }

    pub closed spec fn spec_identity(self) -> TW_IDENTITY {
        self.source_identity
    }

    pub fn session(&self) -> (r: Session)
        ensures
            r == self.spec_session(),
    {
        self.session
    }

    pub fn identity(&self) -> (r: TW_IDENTITY)
        ensures
            r == self.spec_identity(),
    {
        self.source_identity
    }

    /// Take one turn of the message pump into account (transition to state 6
    /// once the source signals that pages are ready).
    pub fn wait_for_transfer(self, event: PumpEvent) -> (r: WaitResult)
        ensures
            match spec_pump_step(event) {
                PumpStep::Ready => r matches WaitResult::TransferReady(next) && next.spec_session()
                    == self.spec_session() && next.spec_identity() == self.spec_identity(),
                PumpStep::Disable => r == WaitResult::CloseRequested(self),
                step => r == WaitResult::Waiting(self, step),
            },
    {
        match pump_step(event) {
            PumpStep::Ready => WaitResult::TransferReady(
                TransferReady { session: self.session, source_identity: self.source_identity },
            ),
            PumpStep::Disable => WaitResult::CloseRequested(self),
            step => WaitResult::Waiting(self, step),
        }
    }

    /// Disable the source (transition back to state 4).
    pub fn disable(self, reply: DsmReply) -> (r: TwainResult<SourceOpened>)
        ensures
            match r {
                Ok(source) => reply.rc == TWRC_SUCCESS && source.spec_session()
                    == self.spec_session() && source.spec_identity() == self.spec_identity(),
                Err(e) => reply.rc != TWRC_SUCCESS && e == failure(Operation::DisableSource, reply),
            },
    {
        match call_checked(Operation::DisableSource, reply) {
            Ok(()) => Ok(
                SourceOpened { session: self.session, source_identity: self.source_identity },
            ),
            Err(e) => Err(e),
        }
    }
}

// ---------------------------------------------------------------------------
// State 6: TransferReady - the source has a page to transfer
// ---------------------------------------------------------------------------
pub struct TransferReady {
    session: Session,
    source_identity: TW_IDENTITY,
}

/// Where a page transfer leaves the session: with more pages to come, or done.
pub enum TransferResult {
    MorePages { page: ScannedPage, next: TransferReady },
    Done { page: ScannedPage, source: SourceOpened },
}

impl TransferReady {
    pub closed spec fn spec_session(self) -> Session {
        self.session
    }

    pub closed spec fn spec_identity(self) -> TW_IDENTITY {
        self.source_identity
    }

    pub fn session(&self) -> (r: Session)
        ensures
            r == self.spec_session(),
    {
        self.session
    }

    pub fn identity(&self) -> (r: TW_IDENTITY)
        ensures
            r == self.spec_identity(),
    {
        self.source_identity
    }

    /// The description of the current page, given the source's answer.
    pub fn get_image_info(&self, info: TW_IMAGEINFO, reply: DsmReply) -> (r: TwainResult<
        TW_IMAGEINFO,
    >)
        ensures
            r == (if reply.rc == TWRC_SUCCESS {
                Ok::<TW_IMAGEINFO, TwainError>(info)
            } else {
                Err(failure(Operation::ImageInfo, reply))
            }),
    {
        match call_checked(Operation::ImageInfo, reply) {
            Ok(()) => Ok(info),
            Err(e) => Err(e),
        }
    }

    /// The size of the transfer buffer that the source prefers.
    pub fn buffer_len(&self, setup: TW_SETUPMEMXFER, reply: DsmReply) -> (r: TwainResult<u32>)
        ensures
            r == (if reply.rc == TWRC_SUCCESS {
                Ok::<u32, TwainError>(setup.Preferred)
            } else {
                Err(failure(Operation::TransferSetup, reply))
            }),
    {
        match call_checked(Operation::TransferSetup, reply) {
            Ok(()) => Ok(setup.Preferred),
            Err(e) => Err(e),
        }
    }

    /// Whether ending the transfer succeeded.
    pub fn end_transfer(&self, reply: DsmReply) -> (r: TwainResult<()>)
        ensures
            r == (if reply.rc == TWRC_SUCCESS {
                Ok::<(), TwainError>(())
            } else {
                Err(failure(Operation::EndTransfer, reply))
            }),
    {
        call_checked(Operation::EndTransfer, reply)
    }

    /// Hand the page over and move on, by the number of transfers still pending.
    pub fn transfer_memory(self, transfer: PageTransfer, pending: TW_PENDINGXFERS) -> (r:
        TransferResult)
        ensures
            match r {
                TransferResult::Done { page, source } => pending.Count == 0 && page_of(
                    page,
                    transfer,
                ) && source.spec_session() == self.spec_session() && source.spec_identity()
                    == self.spec_identity(),
                TransferResult::MorePages { page, next } => pending.Count != 0 && page_of(
                    page,
                    transfer,
                ) && next == self,
            },
    {
        let page = transfer.page();
        if pending.Count == 0 {
            TransferResult::Done {
                page,
                source: SourceOpened {
                    session: self.session,
                    source_identity: self.source_identity,
                },
            }
        } else {
            TransferResult::MorePages { page, next: self }
        }
    }

    /// Drop the pending transfers (transition back to state 4).
    pub fn cancel(self, reply: DsmReply) -> (r: TwainResult<SourceOpened>)
        ensures
            match r {
                Ok(source) => reply.rc == TWRC_SUCCESS && source.spec_session()
                    == self.spec_session() && source.spec_identity() == self.spec_identity(),
                Err(e) => reply.rc != TWRC_SUCCESS && e == failure(
                    Operation::ResetTransfers,
                    reply,
                ),
            },
    {
        match call_checked(Operation::ResetTransfers, reply) {
            Ok(()) => Ok(
                SourceOpened { session: self.session, source_identity: self.source_identity },
            ),
            Err(e) => Err(e),
        }
    }
}

// ---------------------------------------------------------------------------
// Leaving a session before its end
// ---------------------------------------------------------------------------
/// What has to be undone to leave a session that is in this state.
pub open spec fn teardown_from(state: int) -> Seq<Operation> {
    if state == 3 {
        seq![Operation::CloseDsm]
    } else if state == 4 {
        seq![Operation::CloseSource, Operation::CloseDsm]
    } else if state == 5 {
        seq![Operation::DisableSource, Operation::CloseSource, Operation::CloseDsm]
    } else if state == 6 {
        seq![
            Operation::ResetTransfers,
            Operation::DisableSource,
            Operation::CloseSource,
            Operation::CloseDsm,
        ]
    } else {
        Seq::empty()
    }
}

/// The state that an operation leads to from a state in which it is allowed.
pub open spec fn state_after(state: int, op: Operation) -> int {
    match op {
        Operation::OpenDsm => if state == 2 { 3 } else { state },
        Operation::OpenSource => if state == 3 { 4 } else { state },
        Operation::EnableSource => if state == 4 { 5 } else { state },
        Operation::ResetTransfers => if state == 6 { 5 } else { state },
        Operation::DisableSource => if state == 5 { 4 } else { state },
        Operation::CloseSource => if state == 4 { 3 } else { state },
        Operation::CloseDsm => if state == 3 { 2 } else { state },
        _ => state,
    }
}

/// The state after a run of operations.
pub open spec fn state_after_all(state: int, ops: Seq<Operation>) -> int
    decreases ops.len(),
{
    if ops.len() == 0 {
        state
    } else {
        state_after_all(state_after(state, ops[0]), ops.drop_first())
    }
}

/// Law: from every state of a session, undoing it closes what is open, innermost
/// first, and ends with the manager closed.
pub proof fn law_teardown_closes(state: int)
    requires
        2 <= state <= 6,
    ensures
        state_after_all(state, teardown_from(state)) == 2,
        teardown_from(state).len() == state - 2,
    decreases state,
{
    if state > 2 {
        let ops = teardown_from(state);
        assert(ops.drop_first() =~= teardown_from(state - 1));
        law_teardown_closes(state - 1);
    }
}

impl DsmOpened {
    /// What leaving the session from here takes.
    pub fn teardown(&self) -> (r: Vec<Operation>)
        ensures
            r@ == teardown_from(3),
    {
        let mut ops: Vec<Operation> = Vec::new();
        ops.push(Operation::CloseDsm);
        ops
    }
}

impl SourceOpened {
    /// What leaving the session from here takes.
    pub fn teardown(&self) -> (r: Vec<Operation>)
        ensures
            r@ == teardown_from(4),
    {
        let mut ops: Vec<Operation> = Vec::new();
        ops.push(Operation::CloseSource);
        ops.push(Operation::CloseDsm);
        ops
    }
}

impl SourceEnabled {
    /// What leaving the session from here takes.
    pub fn teardown(&self) -> (r: Vec<Operation>)
        ensures
            r@ == teardown_from(5),
    {
        let mut ops: Vec<Operation> = Vec::new();
        ops.push(Operation::DisableSource);
        ops.push(Operation::CloseSource);
        ops.push(Operation::CloseDsm);
        ops
    }
}

impl TransferReady {
    /// What leaving the session from here takes.
    pub fn teardown(&self) -> (r: Vec<Operation>)
        ensures
            r@ == teardown_from(6),
    {
        let mut ops: Vec<Operation> = Vec::new();
        ops.push(Operation::ResetTransfers);
        ops.push(Operation::DisableSource);
        ops.push(Operation::CloseSource);
        ops.push(Operation::CloseDsm);
        ops
    }
}

// ---------------------------------------------------------------------------
// What a session asks for, and what it makes of the answers
// ---------------------------------------------------------------------------
/// Whether a plan sets a capability.
pub open spec fn sets(plan: Seq<CapabilitySetting>, cap: u16) -> bool {
    exists|i: int| 0 <= i < plan.len() && (#[trigger] plan[i]).cap == cap
}

/// Law: a setting is for the capability it was made for, and holds its value: a
/// negative number as its two's complement, a fixed-point number as its whole part
/// in the low half and its fraction in the high half.
pub proof fn law_settings_hold_their_values(cap: u16, unsigned: u16, signed: i16, fixed: TW_FIX32)
    ensures
        u16_setting(cap, unsigned).cap == cap,
        u16_setting(cap, unsigned).value.ItemType == TWTY_UINT16,
        u16_setting(cap, unsigned).value.Item == unsigned,
        i16_setting(cap, signed).cap == cap,
        i16_setting(cap, signed).value.ItemType == TWTY_INT16,
        i16_setting(cap, signed).value.Item == (if signed < 0 {
            signed + 65536
        } else {
            signed as int
        }),
        fix32_setting(cap, fixed).cap == cap,
        fix32_setting(cap, fixed).value.ItemType == TWTY_FIX32,
        fix32_setting(cap, fixed).value.Item as int / 65536 == fixed.Frac,
        fix32_setting(cap, fixed).value.Item as int % 65536 == (if fixed.Whole < 0 {
            fixed.Whole + 65536
        } else {
            fixed.Whole as int
        }),
{
    law_fixed_point_bits_hold_both_parts(fixed);
    assert(signed >= 0 ==> signed as u16 == signed) by (bit_vector);
    assert(signed < 0 ==> signed as u16 == signed + 65536) by (bit_vector);
}

/// Law: a scan asks for what was requested, and for each thing once: for the
/// resolution along both axes, as its whole part without a fraction (beyond the
/// largest that can be said, for that); for the pixel type; for every page of the
/// feeder, or for one page; and for duplex where it is wanted.
pub proof fn law_plan_carries_the_request(
    pixel_type: u16,
    resolution: u32,
    duplex: bool,
    use_adf: bool,
)
    ensures
        ({
            let plan = capability_plan(pixel_type, resolution, duplex, use_adf);
            &&& sets(plan, ICAP_PIXELTYPE)
            &&& sets(plan, ICAP_XRESOLUTION)
            &&& sets(plan, ICAP_YRESOLUTION)
            &&& sets(plan, CAP_XFERCOUNT)
            &&& sets(plan, CAP_FEEDERENABLED) <==> use_adf
            &&& sets(plan, CAP_AUTOFEED) <==> use_adf
            &&& sets(plan, CAP_DUPLEXENABLED) <==> duplex
            &&& forall|i: int, j: int|
                0 <= i < j < plan.len() ==> (#[trigger] plan[i]).cap != (#[trigger] plan[j]).cap
            &&& forall|i: int|
                0 <= i < plan.len() ==> {
                    let setting = #[trigger] plan[i];
                    let item = setting.value.Item as int;
                    &&& setting.cap == ICAP_XRESOLUTION || setting.cap == ICAP_YRESOLUTION ==> {
                        &&& setting.value.ItemType == TWTY_FIX32
                        &&& resolution <= 32767 ==> item % 65536 == resolution && item / 65536 == 0
                        &&& resolution > 32767 ==> item % 65536 == 32767 && item / 65536 == 65535
                    }
                    &&& setting.cap == ICAP_PIXELTYPE ==> setting.value.ItemType == TWTY_UINT16
                        && item == pixel_type
                    &&& setting.cap == CAP_FEEDERENABLED || setting.cap == CAP_AUTOFEED
                        || setting.cap == CAP_DUPLEXENABLED ==> setting.value.ItemType
                        == TWTY_UINT16 && item == 1
                    &&& setting.cap == CAP_XFERCOUNT ==> setting.value.ItemType == TWTY_INT16
                        && item == (if use_adf {
                        65535int
                    } else {
                        1
                    })
                }
        }),
{
    let plan = capability_plan(pixel_type, resolution, duplex, use_adf);
    law_resolutions_are_held(resolution);
    law_settings_hold_their_values(ICAP_XRESOLUTION, pixel_type, -1i16, fix32_of(resolution));
    law_settings_hold_their_values(ICAP_YRESOLUTION, pixel_type, 1i16, fix32_of(resolution));
    law_settings_hold_their_values(CAP_XFERCOUNT, 1, -1i16, fix32_of(resolution));
    law_settings_hold_their_values(CAP_XFERCOUNT, 1, 1i16, fix32_of(resolution));
    assert(plan[0].cap == ICAP_PIXELTYPE);
    assert(plan[1].cap == ICAP_XRESOLUTION);
    assert(plan[2].cap == ICAP_YRESOLUTION);
    if use_adf {
        assert(plan[7].cap == CAP_FEEDERENABLED);
        assert(plan[8].cap == CAP_AUTOFEED);
        assert(plan[9].cap == CAP_XFERCOUNT);
        assert(duplex ==> plan[10].cap == CAP_DUPLEXENABLED);
    } else {
        assert(plan[7].cap == CAP_XFERCOUNT);
        assert(duplex ==> plan[8].cap == CAP_DUPLEXENABLED);
    }
}

/// Law: scans at different resolutions, or of different pixel types, are not
/// negotiated alike.
pub proof fn law_plans_differ(
    pixel_type: u16,
    resolution: u32,
    duplex: bool,
    use_adf: bool,
    other_pixel_type: u16,
    other_resolution: u32,
    other_duplex: bool,
    other_use_adf: bool,
)
    requires
        resolution <= 32767,
        other_resolution <= 32767,
        capability_plan(pixel_type, resolution, duplex, use_adf) == capability_plan(
            other_pixel_type,
            other_resolution,
            other_duplex,
            other_use_adf,
        ),
    ensures
        pixel_type == other_pixel_type,
        resolution == other_resolution,
        duplex == other_duplex,
        use_adf == other_use_adf,
{
    law_plan_carries_the_request(pixel_type, resolution, duplex, use_adf);
    law_plan_carries_the_request(
        other_pixel_type,
        other_resolution,
        other_duplex,
        other_use_adf,
    );
    let plan = capability_plan(pixel_type, resolution, duplex, use_adf);
    assert(plan[0].cap == ICAP_PIXELTYPE);
    assert(plan[1].cap == ICAP_XRESOLUTION);
}

/// Law: black and white asks for pixels of one bit, grayscale for gray ones and
/// color for red, green and blue; the modes go by these names.
pub proof fn law_modes_ask_for_their_pixels()
    ensures
        ColorMode::BlackWhite.pixel_type() == 0,
        ColorMode::Grayscale.pixel_type() == 1,
        ColorMode::Color.pixel_type() == 2,
        ColorMode::BlackWhite.spec_name() == "bw"@,
        ColorMode::Grayscale.spec_name() == "grayscale"@,
        ColorMode::Color.spec_name() == "color"@,
{
}

/// Law: a source is turned down exactly where it says of something that was
/// requested that it does not have it, or not so.
pub proof fn law_rejections_are_of_requests(cap: u16, reply: DsmReply)
    ensures
        is_requested(cap) <==> cap == ICAP_PIXELTYPE || cap == ICAP_XRESOLUTION || cap
            == ICAP_YRESOLUTION || cap == CAP_FEEDERENABLED || cap == CAP_DUPLEXENABLED,
        is_rejection(reply) <==> reply.rc != 0 && reply.rc != 3 && (reply.cc == 9 || reply.cc == 10
            || reply.cc == 13 || reply.cc == 14),
{
}

/// Law: an operation that failed is reported as what the source says went wrong:
/// cancelled, a jam, a double feed, a capability that is missing; and otherwise under
/// its own triplet with the codes of the reply.
pub proof fn law_failures_say_what_went_wrong(op: Operation, reply: DsmReply)
    ensures
        reply.rc == 3 ==> failure(op, reply) == TwainError::Cancelled,
        reply.rc != 3 && reply.cc == 16 ==> failure(op, reply) == TwainError::PaperJam,
        reply.rc != 3 && reply.cc == 17 ==> failure(op, reply) == TwainError::PaperDoubleFeed,
        reply.rc != 3 && reply.cc == 13 ==> failure(op, reply)
            == TwainError::CapabilityNotSupported(op.spec_triplet().dat),
        reply.rc != 3 && reply.cc != 13 && reply.cc != 16 && reply.cc != 17 ==> {
            &&& failure(op, reply) matches TwainError::OperationFailed { dg, dat, msg, rc, cc }
            &&& rc == reply.rc && cc == reply.cc
            &&& dg == op.spec_triplet().dg && dat == op.spec_triplet().dat && msg
                == op.spec_triplet().msg
        },
{
}

/// Law: no two operations are asked for by the same triplet.
pub proof fn law_operations_have_their_own_triplets(a: Operation, b: Operation)
    requires
        a.spec_triplet() == b.spec_triplet(),
    ensures
        a == b,
{
}

/// Law: pages and what describes them are asked for as images, and everything else
/// as control.
pub proof fn law_operations_belong_to_their_group(op: Operation)
    ensures
        op.spec_triplet().dg == (if op == Operation::ImageInfo || op == Operation::MemoryTransfer {
            2u32
        } else {
            1
        }),
{
}

/// Law: the words for an operation that failed name its triplet, in four or more
/// hexadecimal digits each, and its codes.
pub proof fn law_failed_operations_are_named(dg: u32, dat: u16, msg: u16, rc: u16, cc: u16) -> (r: (
    Seq<char>,
    Seq<char>,
    Seq<char>,
    Seq<char>,
    Seq<char>,
))
    ensures
        (TwainError::OperationFailed { dg, dat, msg, rc, cc }).text()
            == "TWAIN operation failed: DG=0x"@ + r.0 + " DAT=0x"@ + r.1 + " MSG=0x"@ + r.2
            + " RC="@ + r.3 + " CC="@ + r.4,
        reads_as(r.0, 16) == Some(dg as nat) && r.0.len() >= 4,
        reads_as(r.1, 16) == Some(dat as nat) && r.1.len() >= 4,
        reads_as(r.2, 16) == Some(msg as nat) && r.2.len() >= 4,
        reads_as(r.3, 10) == Some(rc as nat),
        reads_as(r.4, 10) == Some(cc as nat),
{
    law_numerals_read_back(dg as nat, 16, 4);
    law_numerals_read_back(dat as nat, 16, 4);
    law_numerals_read_back(msg as nat, 16, 4);
    law_numerals_read_back(rc as nat, 10, 1);
    law_numerals_read_back(cc as nat, 10, 1);
    (
        numeral(dg as nat, 16, 4),
        numeral(dat as nat, 16, 4),
        numeral(msg as nat, 16, 4),
        decimal(rc as nat),
        decimal(cc as nat),
    )
}

/// Law: a source is known under the names it was filed under, and by its id.
pub proof fn law_sources_keep_their_names(
    info: SourceInfo,
    id: TW_IDENTITY,
    name: Seq<char>,
    manufacturer: Seq<char>,
    family: Seq<char>,
)
    requires
        info.describes(id),
        is_ascii_chars(name) && is_ascii_chars(manufacturer) && is_ascii_chars(family),
        forall|i: int| 0 <= i < name.len() ==> name[i] != '\0',
        forall|i: int| 0 <= i < manufacturer.len() ==> manufacturer[i] != '\0',
        forall|i: int| 0 <= i < family.len() ==> family[i] != '\0',
        name.len() < 34 && manufacturer.len() < 34 && family.len() < 34,
        id.ProductName@ == field_of(encode_utf8(name), 34),
        id.Manufacturer@ == field_of(encode_utf8(manufacturer), 34),
        id.ProductFamily@ == field_of(encode_utf8(family), 34),
    ensures
        info.id == id.Id,
        info.name@ == name,
        info.manufacturer@ == manufacturer,
        info.product_family@ == family,
{
    law_field_round_trip(name, 34);
    law_field_round_trip(manufacturer, 34);
    law_field_round_trip(family, 34);
}

/// Law: a source's version is written as its major and its minor number, with a dot
/// between them.
pub proof fn law_versions_are_written_out(info: SourceInfo, id: TW_IDENTITY) -> (r: (
    Seq<char>,
    Seq<char>,
))
    requires
        info.describes(id),
    ensures
        info.version@ == r.0 + "."@ + r.1,
        reads_as(r.0, 10) == Some(id.Version.MajorNum as nat),
        reads_as(r.1, 10) == Some(id.Version.MinorNum as nat),
{
    law_numerals_read_back(id.Version.MajorNum as nat, 10, 1);
    law_numerals_read_back(id.Version.MinorNum as nat, 10, 1);
    (decimal(id.Version.MajorNum as nat), decimal(id.Version.MinorNum as nat))
}

/// Law: a page has the size, depth and resolutions that the source described it
/// with, the stride of its last strip, and the bytes of its strips.
pub proof fn law_pages_are_as_described(page: ScannedPage, transfer: PageTransfer)
    requires
        page_of(page, transfer),
        0 <= transfer.spec_info().ImageWidth,
        0 <= transfer.spec_info().ImageLength,
        0 <= transfer.spec_info().BitsPerPixel,
    ensures
        page.width == transfer.spec_info().ImageWidth,
        page.height == transfer.spec_info().ImageLength,
        page.bits_per_pixel == transfer.spec_info().BitsPerPixel,
        page.x_resolution == transfer.spec_info().XResolution,
        page.y_resolution == transfer.spec_info().YResolution,
        page.bytes_per_row == transfer.stride(),
        page.data@ == transfer.collected(),
{
}

/// Law: waiting ends with pages exactly where the source says that they are ready,
/// and without any exactly where the scan is cancelled or the source asks to be
/// closed; a message that is not the source's is dispatched.
pub proof fn law_waiting_ends_as_the_source_says(event: PumpEvent)
    ensures
        spec_pump_step(event) == PumpStep::Ready <==> event == (PumpEvent::Processed {
            rc: 4,
            message: 0x0101,
        }),
        spec_pump_step(event) == PumpStep::Disable <==> event == PumpEvent::Cancelled || event == (
        PumpEvent::Processed { rc: 4, message: 0x0102 }) || event == (PumpEvent::Processed {
            rc: 4,
            message: 0x0103,
        }),
        spec_pump_step(event) == PumpStep::Sleep <==> event == PumpEvent::Idle,
        spec_pump_step(event) == PumpStep::Dispatch <==> (event matches PumpEvent::Processed {
            rc,
            ..
        } && rc != 4),
{
}

/// Law: what is looked up by name is the first of that name.
pub proof fn law_first_of_a_name(sources: Seq<SourceInfo>, name: Seq<char>, i: int, j: int)
    requires
        first_named(sources, name, i),
        0 <= j < sources.len(),
        sources[j].name@ == name,
    ensures
        0 <= i <= j,
        sources[i].name@ == name,
{
}

/// Law: a strip is taken in exactly where the source delivered it, whether or not
/// more are to come.
pub proof fn law_strips_are_delivered(rc: u16)
    ensures
        strip_delivered(rc) <==> rc == 0 || rc == 6,
{
}

/// Law: where the session is to be left from a state, what is done last closes the
/// manager, and whatever is done first is allowed in that state.
pub proof fn law_teardown_begins_where_it_is(state: int)
    requires
        3 <= state <= 6,
    ensures
        teardown_from(state).last() == Operation::CloseDsm,
        teardown_from(state)[0] == (if state == 6 {
            Operation::ResetTransfers
        } else if state == 5 {
            Operation::DisableSource
        } else if state == 4 {
            Operation::CloseSource
        } else {
            Operation::CloseDsm
        }),
{
}

/// Law: the words for an error of a session are those it carries, after what went wrong; a
/// capability is named in four hexadecimal digits.
pub proof fn law_session_errors_carry_their_words(e: TwainError) -> (digits: Seq<char>)
    ensures
        e matches TwainError::DsmLoadFailed(m) ==> e.text() == "Failed to load TWAINDSM.dll: "@
            + m@,
        e matches TwainError::WindowCreationFailed(m) ==> e.text()
            == "Hidden window creation failed: "@ + m@,
        e matches TwainError::CapabilityNotSupported(cap) ==> e.text()
            == "Capability not supported: 0x"@ + digits && digits.len() == 4 && reads_as(digits, 16)
            == Some(cap as nat),
        e is Cancelled ==> e.text() == "TWAIN operation cancelled by user"@,
        e is NoSources ==> e.text() == "No TWAIN data sources available"@,
        e is PaperJam ==> e.text() == "Scanner paper jam detected"@,
        e is PaperDoubleFeed ==> e.text() == "Scanner paper double feed detected"@,
        e is InvalidState ==> e.text() == "Invalid state transition"@,
{
    if let TwainError::CapabilityNotSupported(cap) = e {
        law_numerals_read_back(cap as nat, 16, 4);
        reveal_with_fuel(vstd::arithmetic::power::pow, 5);
        law_numerals_fill_their_width(cap as nat, 16, 4);
        numeral(cap as nat, 16, 4)
    } else {
        Seq::empty()
    }
}

/// Law: a source is asked for by its id and name alone: nothing else of the identity is
/// filled in.
pub proof fn law_sources_are_asked_for_by_name(id: TW_IDENTITY)
    requires
        only_named(id),
    ensures
        id.Version.MajorNum == 0 && id.Version.MinorNum == 0,
        id.ProtocolMajor == 0 && id.ProtocolMinor == 0 && id.SupportedGroups == 0,
        field_text(id.Manufacturer@).len() == 0,
        field_text(id.ProductFamily@).len() == 0,
        field_text(id.Version.Info@).len() == 0,
{
    law_field_text_ends_at_the_first_zero(id.Manufacturer@, 0);
    law_field_text_ends_at_the_first_zero(id.ProductFamily@, 0);
    law_field_text_ends_at_the_first_zero(id.Version.Info@, 0);
}

} // verus!
