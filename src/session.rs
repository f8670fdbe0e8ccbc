//! A decoding session: an aggregator that is created on demand, and the
//! single-packet and batch entry points.
use vstd::prelude::*;
use crate::aggregator::{
    initial_view, opt_frame_view, rows_view, FrameView, MuseProcessedData, MuseStateView,
};
use crate::decode::MotionVector;
use crate::device::{EegResolution, MuseModel, MusePacketType};
use crate::state::MuseState;

verus! {

/// The variant assumed when a packet arrives before any initialisation.
pub open spec fn default_model() -> MuseModel {
    MuseModel::MuseS
}

/// Samples per row of the placeholder frame of an empty batch.
pub const PLACEHOLDER_SAMPLES: usize = 12;

/// The frames of an optional frame.
pub open spec fn frames_of(f: Option<FrameView>) -> Seq<FrameView> {
    match f {
        Some(v) => seq![v],
        None => Seq::empty(),
    }
}

/// The views of a list of frames.
pub open spec fn frames_view(v: Seq<MuseProcessedData>) -> Seq<FrameView> {
    v.map_values(|f: MuseProcessedData| f@)
}

/// The bytes of each packet of a batch.
pub open spec fn packets_view(v: Seq<Vec<u8>>) -> Seq<Seq<u8>> {
    v.map_values(|p: Vec<u8>| p@)
}

/// One packet on a session. A malformed payload changes nothing, not even an
/// uninitialised session; any other packet first initialises the session
/// with the default variant when needed.
pub open spec fn session_step(
    s: Option<MuseStateView>,
    channel: int,
    data: Seq<u8>,
    timestamp_us: u64,
) -> (Option<MuseStateView>, Option<FrameView>) {
    if data.len() != crate::aggregator::PACKET_LEN {
        (s, None)
    } else {
        let st = match s {
            Some(v) => v,
            None => initial_view(default_model()),
        };
        let (next, frame) = st.step(channel, data, timestamp_us);
        (Some(next), frame)
    }
}

/// A batch whose `i`-th packet arrives on channel `i`, packets in order;
/// the frames are concatenated.
pub open spec fn batch_run(s: Option<MuseStateView>, packets: Seq<Seq<u8>>, timestamp_us: u64) -> (
    Option<MuseStateView>,
    Seq<FrameView>,
)
    decreases packets.len(),
{
    if packets.len() == 0 {
        (s, Seq::empty())
    } else {
        let (mid, frames) = batch_run(s, packets.drop_last(), timestamp_us);
        let (next, frame) = session_step(
            mid,
            ((packets.len() - 1) as i32) as int,
            packets.last(),
            timestamp_us,
        );
        (next, frames + frames_of(frame))
    }
}

/// The frame reported for a batch that produced none: `rows` rows of
/// zero samples.
pub open spec fn placeholder_frame(rows: nat, timestamp_us: u64, resolution: EegResolution) -> FrameView {
    FrameView {
        eeg: Seq::new(rows, |i: int| Seq::new(PLACEHOLDER_SAMPLES as nat, |j: int| 0i32)),
        ppg_ir: Seq::empty(),
        ppg_red: Seq::empty(),
        ppg_nir: Seq::empty(),
        spo2: None,
        fnirs_applicable: false,
        accel: MotionVector::spec_zero(),
        gyro: MotionVector::spec_zero(),
        timestamp_us,
        resolution,
        packet_types: seq![MusePacketType::Eeg],
    }
}

/// A batch, with the placeholder frame in place of an empty result. The
/// placeholder has as many rows as the variant configured before the batch
/// has channels.
pub open spec fn batch_result(s: Option<MuseStateView>, packets: Seq<Seq<u8>>, timestamp_us: u64) -> (
    Option<MuseStateView>,
    Seq<FrameView>,
) {
    let (next, frames) = batch_run(s, packets, timestamp_us);
    if frames.len() == 0 {
        let model = match s {
            Some(v) => v.model,
            None => default_model(),
        };
        (
            next,
            seq![placeholder_frame(model.spec_channel_count(), timestamp_us, model.spec_resolution())],
        )
    } else {
        (next, frames)
    }
}

/// A decoding session with one headband.
pub struct MuseSession {
    state: Option<MuseState>,
}

impl View for MuseSession {
    type V = Option<MuseStateView>;

    closed spec fn view(&self) -> Option<MuseStateView> {
        match self.state {
            Some(s) => Some(s@),
            None => None,
        }
    }
}

impl MuseSession {
    pub closed spec fn wf(&self) -> bool {
        match self.state {
            Some(s) => s.wf(),
            None => true,
        }
    }

    /// A session that no variant has been selected for yet.
    pub fn new() -> (r: MuseSession)
        ensures
            r.wf(),
            r@ is None,
    {
        MuseSession { state: None }
    }

    /// Selects the variant and starts over with empty buffers.
    pub fn init_muse_parser(&mut self, model: MuseModel)
        ensures
            final(self).wf(),
            final(self)@ == Some(initial_view(model)),
    {
        self.state = Some(MuseState::new(model));
    }

    /// The selected variant, if any.
    pub fn model(&self) -> (r: Option<MuseModel>)
        ensures
            r == match self@ {
                Some(v) => Some(v.model),
                None => None,
            },
    {
        match &self.state {
            Some(s) => Some(s.model()),
            None => None,
        }
    }

    /// The aggregator, once there is one.
    pub fn state(&self) -> (r: Option<&MuseState>)
        requires
            self.wf(),
        ensures
            match r {
                Some(s) => self@ == Some(s@) && s.wf(),
                None => self@ is None,
            },
    {
        match &self.state {
            Some(s) => Some(s),
            None => None,
        }
    }

    /// Decodes one packet received on `channel`: zero or one frame.
    pub fn parse_muse_packet(&mut self, channel: i32, data: &Vec<u8>, timestamp_us: u64) -> (r:
        Vec<MuseProcessedData>)
        requires
            old(self).wf(),
        ensures
            final(self).wf(),
            final(self)@ == session_step(old(self)@, channel as int, data@, timestamp_us).0,
            frames_view(r@) == frames_of(
                session_step(old(self)@, channel as int, data@, timestamp_us).1,
            ),
    {
        let mut results: Vec<MuseProcessedData> = Vec::new();
        if data.len() != crate::aggregator::PACKET_LEN {
            assert(frames_view(results@) =~= Seq::<FrameView>::empty());
            return results;
        }
        let mut st = match self.state.take() {
            Some(s) => s,
            None => MuseState::new(MuseModel::MuseS),
        };
        let frame = st.parse_packet(channel, data.as_slice(), timestamp_us);
        self.state = Some(st);
        match frame {
            Some(f) => {
                results.push(f);
            },
            None => {},
        }
        assert(frames_view(results@) =~= frames_of(opt_frame_view(frame)));
        results
    }

    /// Decodes a batch whose `i`-th packet arrives on channel `i`. When no
    /// packet yields a frame, one placeholder frame of zero samples stands in
    /// for the result.
    pub fn parse_and_process_muse_packets(
        &mut self,
        raw_packets: &Vec<Vec<u8>>,
        timestamp_us: u64,
    ) -> (r: Vec<MuseProcessedData>)
        requires
            old(self).wf(),
        ensures
            final(self).wf(),
            final(self)@ == batch_result(old(self)@, packets_view(raw_packets@), timestamp_us).0,
            frames_view(r@) == batch_result(old(self)@, packets_view(raw_packets@), timestamp_us).1,
    {
        let ghost start = self@;
        let ghost packets = packets_view(raw_packets@);
        let model = match &self.state {
            Some(s) => s.model(),
            None => MuseModel::MuseS,
        };
        let mut results: Vec<MuseProcessedData> = Vec::new();
        let mut i: usize = 0;
        assert(packets.take(0) =~= Seq::<Seq<u8>>::empty());
        assert(frames_view(results@) =~= Seq::<FrameView>::empty());
        while i < raw_packets.len()
            invariant
                self.wf(),
                i <= raw_packets@.len(),
                packets == packets_view(raw_packets@),
                self@ == batch_run(start, packets.take(i as int), timestamp_us).0,
                frames_view(results@) == batch_run(start, packets.take(i as int), timestamp_us).1,
            decreases raw_packets@.len() - i,
        {
            let ghost before = results@;
            let mut parsed = self.parse_muse_packet(i as i32, &raw_packets[i], timestamp_us);
            let ghost added = parsed@;
            results.append(&mut parsed);
            proof {
                assert(packets.take(i + 1).drop_last() =~= packets.take(i as int));
                assert(packets.take(i + 1).last() == raw_packets@[i as int]@);
                assert(results@ == before + added);
                assert(frames_view(before + added) =~= frames_view(before) + frames_view(added));
            }
            i = i + 1;
        }
        assert(packets.take(raw_packets@.len() as int) =~= packets);
        if results.len() == 0 {
            results.push(new_placeholder_frame(model.channel_count(), timestamp_us, model.resolution()));
            assert(frames_view(results@) =~= seq![
                placeholder_frame(model.spec_channel_count(), timestamp_us, model.spec_resolution()),
            ]);
        }
        results
    }
}

/// The placeholder frame of an empty batch.
fn new_placeholder_frame(rows: usize, timestamp_us: u64, resolution: EegResolution) -> (r:
    MuseProcessedData)
    ensures
        r@ == placeholder_frame(rows as nat, timestamp_us, resolution),
{
    let mut eeg: Vec<Vec<i32>> = Vec::with_capacity(rows);
    let mut i: usize = 0;
    while i < rows
        invariant
            i <= rows,
            eeg@.len() == i,
            forall|k: int|
                0 <= k < i ==> #[trigger] eeg@[k]@ == Seq::new(
                    PLACEHOLDER_SAMPLES as nat,
                    |j: int| 0i32,
                ),
        decreases rows - i,
    {
        let mut row: Vec<i32> = Vec::with_capacity(PLACEHOLDER_SAMPLES);
        let mut j: usize = 0;
        while j < PLACEHOLDER_SAMPLES
            invariant
                j <= PLACEHOLDER_SAMPLES,
                row@ =~= Seq::new(j as nat, |k: int| 0i32),
            decreases PLACEHOLDER_SAMPLES - j,
        {
            row.push(0);
            j = j + 1;
        }
        eeg.push(row);
        i = i + 1;
    }
    let mut tags: Vec<MusePacketType> = Vec::new();
    tags.push(MusePacketType::Eeg);
    let frame = MuseProcessedData {
        eeg,
        ppg_ir: Vec::new(),
        ppg_red: Vec::new(),
        ppg_nir: Vec::new(),
        spo2: None,
        fnirs_applicable: false,
        accel: MotionVector::zero(),
        gyro: MotionVector::zero(),
        timestamp_us,
        resolution,
        packet_types: tags,
    };
    assert(frame@.eeg =~= placeholder_frame(rows as nat, timestamp_us, resolution).eeg);
    assert(frame@.packet_types =~= seq![MusePacketType::Eeg]);
    frame
}

} // verus!
