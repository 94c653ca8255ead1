//! Decisions taken around the H.264 codecs: when a pixel-format scaler must
//! be rebuilt, how frames are stamped, how the decoding loop proceeds, and
//! how RTP payloads are gathered before decoding.
use vstd::prelude::*;

verus! {

/// Why decoding failed.
#[derive(Debug, Clone, Copy, PartialEq, Eq, Structural)]
pub enum CodecErrors {
    CannotDecode,
}

impl CodecErrors {
    /// The text shown for this error.
    pub fn message(&self) -> (s: &'static str)
        ensures
            s@ == "Cannot decode frame"@,
    {
        "Cannot decode frame"
    }
}

/// The width frames are decoded to for display.
pub const DISPLAY_WIDTH: u32 = 1080;

/// The height frames are decoded to for display.
pub const DISPLAY_HEIGHT: u32 = 720;

/// The width frames are scaled to for encoding.
pub const ENCODE_WIDTH: u32 = 1920;

/// The height frames are scaled to for encoding.
pub const ENCODE_HEIGHT: u32 = 1080;

/// The dimensions a scaler converts between.
#[derive(Debug, Clone, Copy, PartialEq, Eq, Structural)]
pub struct ScalerGeometry {
    pub in_width: u32,
    pub in_height: u32,
    pub out_width: u32,
    pub out_height: u32,
}

/// Whether a scaler must be built for `wanted`: there is none yet, or the one
/// there converts between other dimensions.
pub fn scaler_needs_rebuild(current: Option<ScalerGeometry>, wanted: ScalerGeometry) -> (b: bool)
    ensures
        b == (current != Some(wanted)),
{
    match current {
        None => true,
        Some(g) => !(g.in_width == wanted.in_width && g.in_height == wanted.in_height
            && g.out_width == wanted.out_width && g.out_height == wanted.out_height),
    }
}

/// The encoder's bookkeeping between frames: the scaler it holds, and the
/// timestamp of the next frame it encodes.
pub struct EncoderPacing {
    scaler: Option<ScalerGeometry>,
    frame_num: i64,
}

impl EncoderPacing {
    /// The scaler held, by its dimensions.
    pub closed spec fn spec_scaler(&self) -> Option<ScalerGeometry> {
        self.scaler
    }

    /// The timestamp of the next frame.
    pub closed spec fn spec_frame_num(&self) -> i64 {
        self.frame_num
    }

    /// No scaler yet; the first frame is stamped 0.
    pub fn new() -> (p: Self)
        ensures
            p.spec_scaler() is None,
            p.spec_frame_num() == 0,
    {
        EncoderPacing { scaler: None, frame_num: 0 }
    }

    /// The scaler a `width` x `height` frame needs.
    pub open spec fn geometry_for(width: u32, height: u32) -> ScalerGeometry {
        ScalerGeometry { in_width: width, in_height: height, out_width: ENCODE_WIDTH, out_height: ENCODE_HEIGHT }
    }

    /// Whether a `width` x `height` frame needs a new scaler: there is none,
    /// or the frame size changed.
    pub fn needs_scaler(&self, width: u32, height: u32) -> (b: bool)
        ensures
            b == (self.spec_scaler() != Some(Self::geometry_for(width, height))),
    {
        scaler_needs_rebuild(
            self.scaler,
            ScalerGeometry { in_width: width, in_height: height, out_width: ENCODE_WIDTH, out_height: ENCODE_HEIGHT },
        )
    }

    /// Records that a scaler for `width` x `height` frames was built.
    pub fn scaler_built(&mut self, width: u32, height: u32)
        ensures
            final(self).spec_scaler() == Some(Self::geometry_for(width, height)),
            final(self).spec_frame_num() == old(self).spec_frame_num(),
    {
        self.scaler = Some(
            ScalerGeometry { in_width: width, in_height: height, out_width: ENCODE_WIDTH, out_height: ENCODE_HEIGHT },
        );
    }

    /// Records that building a scaler failed: none is held any more.
    pub fn scaler_failed(&mut self)
        ensures
            final(self).spec_scaler() is None,
            final(self).spec_frame_num() == old(self).spec_frame_num(),
    {
        self.scaler = None;
    }

    /// The timestamp the next frame will get.
    pub fn frame_num(&self) -> (n: i64)
        ensures
            n == self.spec_frame_num(),
    {
        self.frame_num
    }

    /// The timestamp for the frame being encoded; the next one gets the
    /// following number.
    pub fn next_pts(&mut self) -> (pts: i64)
        requires
            old(self).spec_frame_num() < i64::MAX,
        ensures
            pts == old(self).spec_frame_num(),
            final(self).spec_frame_num() == old(self).spec_frame_num() + 1,
            final(self).spec_scaler() == old(self).spec_scaler(),
    {
        let pts = self.frame_num;
        self.frame_num = self.frame_num + 1;
        pts
    }
}

/// Law: the encoder's scaler fits exactly one frame size: two sizes need the
/// same scaler exactly when they are equal, and every scaler converts to the
/// encoding size.
pub proof fn law_one_scaler_per_frame_size(w1: u32, h1: u32, w2: u32, h2: u32)
    ensures
        (EncoderPacing::geometry_for(w1, h1) == EncoderPacing::geometry_for(w2, h2)) <==> (w1 == w2
            && h1 == h2),
        EncoderPacing::geometry_for(w1, h1).out_width == ENCODE_WIDTH,
        EncoderPacing::geometry_for(w1, h1).out_height == ENCODE_HEIGHT,
{
}

/// How sending a packet to the decoder went.
#[derive(Debug, Clone, Copy, PartialEq, Eq, Structural)]
pub enum SendOutcome {
    Accepted,
    /// The decoder asks to have its frames read first.
    Again,
    Failed,
}

/// How reading a frame from the decoder went.
#[derive(Debug, Clone, Copy, PartialEq, Eq, Structural)]
pub enum ReceiveOutcome {
    Frame,
    /// No frame is ready yet.
    Again,
    Failed,
}

/// What happened last in the decoding loop.
#[derive(Debug, Clone, Copy, PartialEq, Eq, Structural)]
pub enum DecoderEvent {
    /// The decoder was asked to stop.
    Stopped,
    /// The channel feeding data was closed.
    ChannelClosed,
    /// A chunk of this many bytes arrived.
    Received(usize),
    /// A packet was sent to the decoder.
    Sent(SendOutcome),
    /// A frame was asked of the decoder.
    Got(ReceiveOutcome),
}

/// What the decoding loop does next.
#[derive(Debug, Clone, Copy, PartialEq, Eq, Structural)]
pub enum DecoderAction {
    /// Leave the loop: the decoding thread ends.
    Stop,
    /// Wait for the next chunk of data.
    WaitForData,
    /// Send the chunk to the decoder as a packet.
    SubmitPacket,
    /// Ask the decoder for a frame.
    ReceiveFrame,
    /// Convert and hand out the decoded frame, then ask for another.
    ProcessFrame,
}

/// The decoding loop's next step after `event`: empty chunks are skipped; a
/// decoder that refuses a packet because it is full ends the loop, one that
/// fails on it does not; frames are read until none is ready.
pub fn decoder_step(event: DecoderEvent) -> (a: DecoderAction)
    ensures
        a == match event {
            DecoderEvent::Stopped => DecoderAction::Stop,
            DecoderEvent::ChannelClosed => DecoderAction::Stop,
            DecoderEvent::Received(n) => if n == 0 {
                DecoderAction::WaitForData
            } else {
                DecoderAction::SubmitPacket
            },
            DecoderEvent::Sent(SendOutcome::Accepted) => DecoderAction::ReceiveFrame,
            DecoderEvent::Sent(SendOutcome::Again) => DecoderAction::Stop,
            DecoderEvent::Sent(SendOutcome::Failed) => DecoderAction::WaitForData,
            DecoderEvent::Got(ReceiveOutcome::Frame) => DecoderAction::ProcessFrame,
            DecoderEvent::Got(_) => DecoderAction::WaitForData,
        },
{
    match event {
        DecoderEvent::Stopped => DecoderAction::Stop,
        DecoderEvent::ChannelClosed => DecoderAction::Stop,
        DecoderEvent::Received(n) => if n == 0 {
            DecoderAction::WaitForData
        } else {
            DecoderAction::SubmitPacket
        },
        DecoderEvent::Sent(SendOutcome::Accepted) => DecoderAction::ReceiveFrame,
        DecoderEvent::Sent(SendOutcome::Again) => DecoderAction::Stop,
        DecoderEvent::Sent(SendOutcome::Failed) => DecoderAction::WaitForData,
        DecoderEvent::Got(ReceiveOutcome::Frame) => DecoderAction::ProcessFrame,
        DecoderEvent::Got(_) => DecoderAction::WaitForData,
    }
}

/// RTP payloads gathered until they decode into a frame.
pub struct RtpNalBuffer {
    nal_buffer: Vec<u8>,
}

impl View for RtpNalBuffer {
    type V = Seq<u8>;

    closed spec fn view(&self) -> Seq<u8> {
        self.nal_buffer@
    }
}

impl RtpNalBuffer {
    /// Nothing gathered.
    pub fn new() -> (b: Self)
        ensures
            b@ == Seq::<u8>::empty(),
    {
        RtpNalBuffer { nal_buffer: Vec::new() }
    }

    /// Adds `payload` behind what was gathered, and returns everything
    /// gathered, to be sent to the decoder as one packet; nothing when
    /// nothing was gathered.
    pub fn decode_rtp_packet(&mut self, payload: &[u8]) -> (packet: Option<Vec<u8>>)
        ensures
            final(self)@ == old(self)@ + payload@,
            packet is None <==> final(self)@.len() == 0,
            packet matches Some(p) ==> p@ == final(self)@,
    {
        self.nal_buffer.extend_from_slice(payload);
        assert(self.nal_buffer@ =~= old(self)@ + payload@);
        if self.nal_buffer.len() == 0 {
            return None;
        }
        let mut copy: Vec<u8> = Vec::new();
        copy.extend_from_slice(self.nal_buffer.as_slice());
        assert(copy@ =~= self.nal_buffer@);
        Some(copy)
    }

    /// Records that what was gathered decoded into a frame: it is dropped.
    pub fn frame_decoded(&mut self)
        ensures
            final(self)@ == Seq::<u8>::empty(),
    {
        self.nal_buffer.clear();
    }
}

} // verus!
