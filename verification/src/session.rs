use vstd::prelude::*;
use crate::error::Error;
use crate::format::CodecInfo;
use crate::format::PixelLayout;
use crate::format::first_usable;
use crate::format::negotiate;
use crate::frame::RgbFrame;
use crate::frame::spec_convert;
use crate::time::Rational;
use crate::time::rescale_ts;
use crate::time::spec_rescale;

verus! {

/// A unit of compressed data as the container sees it: the stream it
/// belongs to and its presentation timestamp, already rescaled into that
/// stream's time base.
#[derive(Clone, Copy, Debug, PartialEq, Eq, Structural)]
pub struct Packet {
    pub stream_id: i32,
    pub pts: i64,
}

/// A frame made ready for the encoder: converted into the session's
/// negotiated layout and stamped with its presentation timestamp.
pub struct FrameSubmission {
    pub frame: RgbFrame,
    pub pts: i64,
}

/// The encode session's state machine.
///
/// The session decides everything the collaborating encoder and container
/// are handed: which pixel layout frames are converted into, which
/// presentation timestamp each frame carries, how packet timestamps are
/// rescaled and which stream they are stamped with, and whether the
/// flush/drain/trailer teardown still has to run. The caller performs the
/// collaborator calls in this order: open the container and add one stream
/// (its identifier and the encoder's configured dimensions are recorded
/// here at construction), write the container header before any frame is
/// submitted, submit each `FrameSubmission` and drain, and run the teardown
/// exactly when `finalize` says so.
pub struct VideoGenerator {
    /// The encoder's time base, fixed at construction.
    pub time_base: Rational,
    /// The stream identifier the container assigned; never changes.
    pub stream_id: i32,
    /// The negotiated pixel layout; every frame handed to the encoder is in
    /// this layout.
    pub pixel_format: PixelLayout,
    /// Count of accepted frames; used verbatim as the next presentation
    /// timestamp.
    pub frame_num: i64,
    /// The encoder's configured frame width.
    pub width: u32,
    /// The encoder's configured frame height.
    pub height: u32,
    /// Whether the teardown (flush, final drain, trailer) has been claimed;
    /// transitions false to true at most once.
    pub finalized: bool,
    /// The presentation timestamps assigned so far, in submission order.
    pub pts_log: Ghost<Seq<i64>>,
}

impl VideoGenerator {
    /// A valid session: a usable layout was negotiated, the time base is a
    /// positive duration, and the timestamp log records exactly `0, 1, ...,
    /// frame_num - 1`.
    pub open spec fn wf(self) -> bool {
        &&& 0 <= self.frame_num
        &&& !self.pixel_format.is_hardware_only()
        &&& self.time_base.is_positive()
        &&& self.pts_log@.len() == self.frame_num
        &&& forall|k: int| 0 <= k < self.pts_log@.len() ==> self.pts_log@[k] == k
    }

    /// Construct a session around a freshly added stream.
    ///
    /// `codec` is what the codec lookup produced (`None` when the lookup
    /// failed), `stream_id` the identifier the container assigned to the
    /// session's single stream, and `width`/`height` the dimensions the
    /// encoder was configured with. Fails with `InvalidCodec` exactly when
    /// the lookup failed, and with `MissingFormat` exactly when the codec
    /// advertises no layout usable from host memory; no session is
    /// observable on failure.
    pub fn new(
        time_base: Rational,
        stream_id: i32,
        codec: Option<&CodecInfo>,
        width: u32,
        height: u32,
    ) -> (r: Result<VideoGenerator, Error>)
        requires
            time_base.is_positive(),
        ensures
            match r {
                Ok(s) => {
                    &&& codec is Some
                    &&& first_usable(codec.unwrap().layouts@) == Some(s.pixel_format)
                    &&& s.time_base == time_base
                    &&& s.stream_id == stream_id
                    &&& s.width == width
                    &&& s.height == height
                    &&& s.frame_num == 0
                    &&& !s.finalized
                    &&& s.pts_log@ == Seq::<i64>::empty()
                    &&& s.wf()
                },
                Err(e) => {
                    ||| (e == Error::InvalidCodec && codec is None)
                    ||| (e == Error::MissingFormat && codec is Some
                        && first_usable(codec.unwrap().layouts@) is None)
                },
            },
    {
        let info = match codec {
            Some(info) => info,
            None => {
                return Err(Error::InvalidCodec);
            },
        };
        let pixel_format = match negotiate(&info.layouts) {
            Ok(l) => l,
            Err(e) => {
                return Err(e);
            },
        };
        Ok(VideoGenerator {
            time_base,
            stream_id,
            pixel_format,
            frame_num: 0,
            width,
            height,
            finalized: false,
            pts_log: Ghost(Seq::<i64>::empty()),
        })
    }

    /// Accept one frame: convert it into the negotiated layout, stamp it
    /// with the current frame count as its presentation timestamp — the
    /// sole timestamping rule; callers supply no timestamps — and advance
    /// the count. The caller then hands the returned submission to the
    /// encoder and drains.
    pub fn add_frame(&mut self, frame: &RgbFrame) -> (sub: FrameSubmission)
        requires
            old(self).wf(),
            frame.wf(),
            old(self).frame_num < i64::MAX,
        ensures
            final(self).wf(),
            sub.pts == old(self).frame_num,
            final(self).frame_num == old(self).frame_num + 1,
            final(self).pts_log@ == old(self).pts_log@.push(sub.pts),
            final(self).time_base == old(self).time_base,
            final(self).stream_id == old(self).stream_id,
            final(self).pixel_format == old(self).pixel_format,
            final(self).width == old(self).width,
            final(self).height == old(self).height,
            final(self).finalized == old(self).finalized,
            sub.frame.wf(),
            sub.frame.layout == old(self).pixel_format,
            sub.frame.width == frame.width,
            sub.frame.height == frame.height,
            sub.frame.data@ == spec_convert(
                frame.layout,
                old(self).pixel_format,
                frame.data@,
                (frame.width * frame.height) as nat,
            ),
    {
        let converted = match frame.convert(self.pixel_format) {
            Ok(f) => f,
            Err(_) => {
                proof {
                    assert(false);
                }
                vstd::pervasive::unreached()
            },
        };
        let pts = self.frame_num;
        self.frame_num = self.frame_num + 1;
        proof {
            self.pts_log@ = self.pts_log@.push(pts);
        }
        FrameSubmission { frame: converted, pts }
    }

    /// The finalize decision as a function of the session state: the
    /// successor state, and whether the teardown actions (encoder flush,
    /// final drain, container trailer) must run now.
    pub open spec fn spec_finalize(self) -> (VideoGenerator, bool) {
        (VideoGenerator { finalized: true, ..self }, !self.finalized)
    }

    /// Claim the teardown. Idempotent: the first call returns `true` and
    /// the caller must then flush the encoder, drain it to exhaustion and
    /// write the container trailer; every later call returns `false`,
    /// changes nothing, and the caller performs no encoder or container
    /// operation.
    pub fn finalize(&mut self) -> (run_teardown: bool)
        ensures
            (*final(self), run_teardown) == old(self).spec_finalize(),
            final(self).finalized,
            run_teardown == !old(self).finalized,
            old(self).finalized ==> *final(self) == *old(self),
            final(self).time_base == old(self).time_base,
            final(self).stream_id == old(self).stream_id,
            final(self).pixel_format == old(self).pixel_format,
            final(self).frame_num == old(self).frame_num,
            final(self).width == old(self).width,
            final(self).height == old(self).height,
            final(self).pts_log@ == old(self).pts_log@,
            old(self).wf() ==> final(self).wf(),
    {
        if self.finalized {
            return false;
        }
        self.finalized = true;
        true
    }

    /// Route the packets one drain pass pulled out of the encoder: stamp
    /// each with the session's stream identifier and rescale its timestamp
    /// from the encoder's time base into the actual stream time base the
    /// container settled on (read back from the stream, not assumed equal
    /// to the requested one). Packets come out in the order they came in.
    pub fn drain_encoder(&self, ready_pts: &Vec<i64>, stream_time_base: Rational) -> (packets: Vec<
        Packet,
    >)
        requires
            self.wf(),
            stream_time_base.is_positive(),
            forall|i: int| 0 <= i < ready_pts@.len() ==> 0 <= #[trigger] ready_pts@[i],
            forall|i: int|
                0 <= i < ready_pts@.len() ==> #[trigger] ready_pts@[i] * self.time_base.num
                    * stream_time_base.den + (self.time_base.den * stream_time_base.num) / 2
                    <= i64::MAX,
        ensures
            packets@.len() == ready_pts@.len(),
            forall|i: int|
                0 <= i < packets@.len() ==> (#[trigger] packets@[i]).stream_id == self.stream_id
                    && packets@[i].pts == spec_rescale(
                    ready_pts@[i] as int,
                    self.time_base,
                    stream_time_base,
                ),
    {
        let mut packets: Vec<Packet> = Vec::new();
        let mut i: usize = 0;
        while i < ready_pts.len()
            invariant
                0 <= i <= ready_pts@.len(),
                self.wf(),
                stream_time_base.is_positive(),
                forall|j: int| 0 <= j < ready_pts@.len() ==> 0 <= #[trigger] ready_pts@[j],
                forall|j: int|
                    0 <= j < ready_pts@.len() ==> #[trigger] ready_pts@[j] * self.time_base.num
                        * stream_time_base.den + (self.time_base.den * stream_time_base.num) / 2
                        <= i64::MAX,
                packets@.len() == i,
                forall|j: int|
                    0 <= j < i ==> (#[trigger] packets@[j]).stream_id == self.stream_id
                        && packets@[j].pts == spec_rescale(
                        ready_pts@[j] as int,
                        self.time_base,
                        stream_time_base,
                    ),
            decreases ready_pts@.len() - i,
        {
            let pts = rescale_ts(ready_pts[i], self.time_base, stream_time_base);
            packets.push(Packet { stream_id: self.stream_id, pts });
            i = i + 1;
        }
        packets
    }

    /// Resolve the session's stream identifier against the container's
    /// current stream list, as the caller read it. Returns the position of
    /// the first stream with the session's identifier; fails with
    /// `MissingStream` exactly when no stream carries it.
    pub fn stream(&self, stream_ids: &Vec<i32>) -> (r: Result<usize, Error>)
        ensures
            match r {
                Ok(i) => {
                    &&& i < stream_ids@.len()
                    &&& stream_ids@[i as int] == self.stream_id
                    &&& forall|j: int| 0 <= j < i ==> stream_ids@[j] != self.stream_id
                },
                Err(e) => {
                    &&& e == Error::MissingStream
                    &&& forall|j: int|
                        0 <= j < stream_ids@.len() ==> stream_ids@[j] != self.stream_id
                },
            },
    {
        let mut i: usize = 0;
        while i < stream_ids.len()
            invariant
                0 <= i <= stream_ids@.len(),
                forall|j: int| 0 <= j < i ==> stream_ids@[j] != self.stream_id,
            decreases stream_ids@.len() - i,
        {
            if stream_ids[i] == self.stream_id {
                return Ok(i);
            }
            i = i + 1;
        }
        Err(Error::MissingStream)
    }

    pub fn width(&self) -> (r: u32)
        ensures
            r == self.width,
    {
        self.width
    }

    pub fn height(&self) -> (r: u32)
        ensures
            r == self.height,
    {
        self.height
    }
}

/// Law: finalize is idempotent — taking the finalize decision twice leaves
/// the very state one decision leaves, and the second decision claims no
/// encoder or container operation, so after a finalize nothing further is
/// flushed, drained or written.
pub proof fn lemma_finalize_idempotent(s: VideoGenerator)
    ensures
        s.spec_finalize().0.spec_finalize().0 == s.spec_finalize().0,
        !s.spec_finalize().0.spec_finalize().1,
{
}

/// Law: presentation timestamps are monotonic and unit-spaced — the k-th
/// accepted frame (0-indexed) of any valid session was assigned
/// presentation timestamp exactly `k` in the session's time base.
pub proof fn lemma_monotonic_timestamps(s: VideoGenerator, k: int)
    requires
        s.wf(),
        0 <= k < s.pts_log@.len(),
    ensures
        s.pts_log@[k] == k,
        forall|j: int| 0 <= j < k ==> s.pts_log@[j] < s.pts_log@[k],
{
}

} // verus!
