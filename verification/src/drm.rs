//! The kernel-mode-setting protocol model: what each query decides and what
//! each request record must hold. The ioctl calls that carry these records
//! are made outside the crate; the functions here validate replies and build
//! requests, field by field.

use vstd::prelude::*;

verus! {

/// One variant per call that can fail; every failure is attributable to one
/// specific query, allocation, mapping or activation step.
#[derive(Clone, Copy, PartialEq, Eq, Structural, Debug)]
pub enum DrmError {
    DeviceOpenFailed,
    ResourceQueryFailed,
    BufferAllocationFailed,
    MappingFailed,
    ActivationFailed,
    InputReadFailed,
}

/// The counts the resource query reports: how many framebuffers, CRTCs,
/// connectors and encoders the kernel currently knows.
#[derive(Clone, Copy, PartialEq, Eq, Structural, Debug)]
pub struct ResourceCounts {
    pub fbs: u32,
    pub crtcs: u32,
    pub connectors: u32,
    pub encoders: u32,
}

/// The id lists the sized resource query filled in.
pub struct Resources {
    pub fb_ids: Vec<u32>,
    pub crtc_ids: Vec<u32>,
    pub connector_ids: Vec<u32>,
    pub encoder_ids: Vec<u32>,
}

/// Combines the two phases of the resource query. The first reply gave the
/// counts the id buffers were sized to; the second filled them. A second
/// reply whose counts differ (an output appeared or vanished between the
/// calls) is rejected, so no id list is ever read beyond what the kernel
/// actually wrote.
pub fn assemble_resources(
    first: &ResourceCounts,
    second: &ResourceCounts,
    fb_ids: Vec<u32>,
    crtc_ids: Vec<u32>,
    connector_ids: Vec<u32>,
    encoder_ids: Vec<u32>,
) -> (r: Result<Resources, DrmError>)
    requires
        fb_ids@.len() == first.fbs,
        crtc_ids@.len() == first.crtcs,
        connector_ids@.len() == first.connectors,
        encoder_ids@.len() == first.encoders,
    ensures
        (r is Ok) <==> *first == *second,
        r matches Ok(res) ==> res.fb_ids@ == fb_ids@ && res.crtc_ids@ == crtc_ids@
            && res.connector_ids@ == connector_ids@ && res.encoder_ids@ == encoder_ids@,
        r matches Err(e) ==> e == DrmError::ResourceQueryFailed,
{
    if *first == *second {
        Ok(Resources { fb_ids, crtc_ids, connector_ids, encoder_ids })
    } else {
        Err(DrmError::ResourceQueryFailed)
    }
}

/// One display mode: the timing fields this system reads. The kernel's
/// record carries more; these are the fields the logic decides on.
#[derive(Clone, Copy, PartialEq, Eq, Structural, Debug)]
pub struct ModeInfo {
    pub hdisplay: u16,
    pub vdisplay: u16,
    pub vrefresh: u32,
}

/// The counts the first connector query reports.
#[derive(Clone, Copy, PartialEq, Eq, Structural, Debug)]
pub struct ConnectorCounts {
    pub modes: u32,
    pub props: u32,
    pub encoders: u32,
}

/// One connector: its bound encoder, its mode list and its property table,
/// as the sized connector query filled them in.
pub struct ConnectorInfo {
    pub connector_id: u32,
    pub encoder_id: u32,
    pub modes: Vec<ModeInfo>,
    pub prop_ids: Vec<u64>,
    pub prop_values: Vec<u64>,
    pub encoder_ids: Vec<u32>,
}

/// Combines the two phases of a connector query, under the same count
/// stability rule as the resource query.
pub fn assemble_connector(
    connector_id: u32,
    encoder_id: u32,
    first: &ConnectorCounts,
    second: &ConnectorCounts,
    modes: Vec<ModeInfo>,
    prop_ids: Vec<u64>,
    prop_values: Vec<u64>,
    encoder_ids: Vec<u32>,
) -> (r: Result<ConnectorInfo, DrmError>)
    requires
        modes@.len() == first.modes,
        prop_ids@.len() == first.props,
        prop_values@.len() == first.props,
        encoder_ids@.len() == first.encoders,
    ensures
        (r is Ok) <==> *first == *second,
        r matches Ok(con) ==> con.connector_id == connector_id && con.encoder_id == encoder_id
            && con.modes@ == modes@ && con.prop_ids@ == prop_ids@ && con.prop_values@
            == prop_values@ && con.encoder_ids@ == encoder_ids@,
        r matches Err(e) ==> e == DrmError::ResourceQueryFailed,
{
    if *first == *second {
        Ok(ConnectorInfo { connector_id, encoder_id, modes, prop_ids, prop_values, encoder_ids })
    } else {
        Err(DrmError::ResourceQueryFailed)
    }
}

/// The first entry of a connector's mode list is taken as the operating
/// mode (the kernel lists it first by protocol convention); a connector
/// with no modes yields nothing.
pub fn select_mode(modes: &Vec<ModeInfo>) -> (r: Option<ModeInfo>)
    ensures
        r == if modes@.len() > 0 {
            Some(modes@[0])
        } else {
            None::<ModeInfo>
        },
{
    if modes.len() > 0 {
        Some(modes[0])
    } else {
        None
    }
}

/// `r` is the display name encoded in `raw`: everything before the first
/// zero byte, or all of `raw` when no byte is zero.
pub open spec fn is_name_prefix(raw: Seq<u8>, r: Seq<u8>) -> bool {
    r.len() <= raw.len() && (forall|k: int| 0 <= k < r.len() ==> r[k] == raw[k] && raw[k] != 0) && (
    r.len() == raw.len() || raw[r.len() as int] == 0)
}

/// Decodes a mode's fixed-length name field: the bytes before the first
/// zero; whatever follows the terminator is garbage and is dropped.
pub fn mode_name(raw: &Vec<u8>) -> (r: Vec<u8>)
    ensures
        is_name_prefix(raw@, r@),
{
    let mut out: Vec<u8> = Vec::new();
    let n = raw.len();
    let mut i: usize = 0;
    while i < n
        invariant
            n == raw@.len(),
            i <= n,
            out@.len() == i,
            forall|k: int| 0 <= k < i ==> out@[k] == raw@[k] && raw@[k] != 0,
        decreases n - i,
    {
        let b = raw[i];
        if b == 0 {
            return out;
        }
        out.push(b);
        i = i + 1;
    }
    out
}

/// What the dumb-buffer allocation asks for.
#[derive(Clone, Copy, PartialEq, Eq, Structural, Debug)]
pub struct DumbBufferRequest {
    pub width: u32,
    pub height: u32,
    pub bpp: u32,
    pub flags: u32,
}

/// What the allocation came back with: the kernel picks the row pitch and
/// the total size, and hands out a buffer handle.
#[derive(Clone, Copy, PartialEq, Eq, Structural, Debug)]
pub struct DumbBufferReply {
    pub handle: u32,
    pub pitch: u32,
    pub size: u64,
}

/// The buffer is sized to the mode, at 32 bits per pixel, with no flags.
pub fn plan_dumb_buffer(mode: &ModeInfo) -> (r: DumbBufferRequest)
    ensures
        r == (DumbBufferRequest {
            width: mode.hdisplay as u32,
            height: mode.vdisplay as u32,
            bpp: 32u32,
            flags: 0u32,
        }),
{
    DumbBufferRequest { width: mode.hdisplay as u32, height: mode.vdisplay as u32, bpp: 32, flags: 0 }
}

/// A usable allocation must give each row at least `width` 32-bit pixels
/// within its pitch, and the buffer at least `height` whole rows; a reply
/// that promises less is refused before anything is mapped over it.
pub fn validate_dumb_buffer(req: &DumbBufferRequest, reply: &DumbBufferReply) -> (r: Result<
    (),
    DrmError,
>)
    requires
        req.bpp == 32,
    ensures
        (r is Ok) <==> (4 * req.width <= reply.pitch && req.height * reply.pitch <= reply.size),
        r matches Err(e) ==> e == DrmError::BufferAllocationFailed,
{
    proof {
        assert((req.height as int) * (reply.pitch as int) <= 0xffff_ffff * 0xffff_ffff)
            by (nonlinear_arith)
            requires
                req.height <= 0xffff_ffffu32,
                reply.pitch <= 0xffff_ffffu32,
        ;
    }
    if 4 * (req.width as u64) <= (reply.pitch as u64) && (req.height as u64) * (reply.pitch as u64)
        <= reply.size {
        Ok(())
    } else {
        Err(DrmError::BufferAllocationFailed)
    }
}

/// What the framebuffer-object registration carries.
#[derive(Clone, Copy, PartialEq, Eq, Structural, Debug)]
pub struct FbRequest {
    pub width: u32,
    pub height: u32,
    pub bpp: u32,
    pub pitch: u32,
    pub depth: u32,
    pub handle: u32,
}

/// Registers the allocated buffer as a framebuffer object: geometry and
/// pixel depth from the request, pitch and handle from the allocation, and
/// a color depth fixed at 24.
pub fn plan_framebuffer(req: &DumbBufferRequest, reply: &DumbBufferReply) -> (r: FbRequest)
    ensures
        r == (FbRequest {
            width: req.width,
            height: req.height,
            bpp: req.bpp,
            pitch: reply.pitch,
            depth: 24u32,
            handle: reply.handle,
        }),
{
    FbRequest {
        width: req.width,
        height: req.height,
        bpp: req.bpp,
        pitch: reply.pitch,
        depth: 24,
        handle: reply.handle,
    }
}

/// One encoder, as its query reports it: its id and the CRTC it feeds.
#[derive(Clone, Copy, PartialEq, Eq, Structural, Debug)]
pub struct EncoderInfo {
    pub encoder_id: u32,
    pub crtc_id: u32,
}

/// What the mode-set call carries: which CRTC scans which framebuffer out
/// to which connector, with the mode marked valid.
#[derive(Clone, Copy, PartialEq, Eq, Structural, Debug)]
pub struct CrtcRequest {
    pub crtc_id: u32,
    pub fb_id: u32,
    pub connector_id: u32,
    pub mode_valid: u32,
    pub mode: ModeInfo,
}

/// Builds the activation request for one connector: the CRTC comes from the
/// encoder the connector reports as bound; an encoder record that is not
/// the connector's own is refused.
pub fn plan_crtc(connector: &ConnectorInfo, encoder: &EncoderInfo, fb_id: u32, mode: &ModeInfo)
    -> (r: Result<CrtcRequest, DrmError>)
    ensures
        (r is Ok) <==> connector.encoder_id == encoder.encoder_id,
        r matches Ok(c) ==> c == (CrtcRequest {
            crtc_id: encoder.crtc_id,
            fb_id,
            connector_id: connector.connector_id,
            mode_valid: 1u32,
            mode: *mode,
        }),
        r matches Err(e) ==> e == DrmError::ActivationFailed,
{
    if connector.encoder_id == encoder.encoder_id {
        Ok(
            CrtcRequest {
                crtc_id: encoder.crtc_id,
                fb_id,
                connector_id: connector.connector_id,
                mode_valid: 1,
                mode: *mode,
            },
        )
    } else {
        Err(DrmError::ActivationFailed)
    }
}

} // verus!
