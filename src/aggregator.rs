//! The channel aggregator: per-channel buffers, the completion policy, and
//! the frames it emits.
use vstd::prelude::*;
use crate::decode::{eeg_decode, motion_at, ppg_decode, MotionVector};
use crate::device::{EegResolution, Fraction, MuseModel, MusePacketType};
use crate::metrics::spo2_spec;

verus! {

/// Length of every well-formed notification payload.
pub const PACKET_LEN: usize = 20;

/// Buffers kept for EEG channels, whatever the variant.
pub const MAX_EEG_CHANNELS: usize = 7;

/// Buffers kept for optical channels, whatever the variant.
pub const MAX_PPG_CHANNELS: usize = 3;

/// The meaning of a channel identifier under a given variant.
#[derive(Clone, Copy, Debug, PartialEq, Eq, Structural)]
pub enum ChannelKind {
    Eeg(usize),
    Accelerometer,
    Gyroscope,
    Optical(usize),
    Unrecognized,
}

/// Identifiers below the variant's EEG channel count are EEG channels; that
/// rule is tried first, so 5 and 6 are motion channels only on variants with
/// fewer electrodes. 7 to 9 are the optical channels.
pub open spec fn spec_classify(channel: int, model: MuseModel) -> ChannelKind {
    if 0 <= channel <= 6 && channel < model.spec_channel_count() {
        ChannelKind::Eeg(channel as usize)
    } else if channel == 5 {
        ChannelKind::Accelerometer
    } else if channel == 6 {
        ChannelKind::Gyroscope
    } else if 7 <= channel <= 9 {
        ChannelKind::Optical((channel - 7) as usize)
    } else {
        ChannelKind::Unrecognized
    }
}

/// Classifies a channel identifier for the active variant.
pub fn classify_channel(channel: i32, model: MuseModel) -> (r: ChannelKind)
    ensures
        r == spec_classify(channel as int, model),
{
    let channel_count = model.channel_count();
    if 0 <= channel && channel <= 6 && (channel as usize) < channel_count {
        ChannelKind::Eeg(channel as usize)
    } else if channel == 5 {
        ChannelKind::Accelerometer
    } else if channel == 6 {
        ChannelKind::Gyroscope
    } else if 7 <= channel && channel <= 9 {
        ChannelKind::Optical((channel - 7) as usize)
    } else {
        ChannelKind::Unrecognized
    }
}

/// How many received channels complete an EEG frame.
pub open spec fn spec_required_channels(channel_count: nat) -> nat {
    if channel_count == 4 {
        4
    } else {
        channel_count
    }
}

/// How many received channels complete an EEG frame.
pub fn required_channels(channel_count: usize) -> (r: usize)
    ensures
        r == spec_required_channels(channel_count as nat),
{
    if channel_count == 4 {
        4
    } else {
        channel_count
    }
}

/// How many flags are set.
pub open spec fn count_true(s: Seq<bool>) -> nat
    decreases s.len(),
{
    if s.len() == 0 {
        0
    } else {
        count_true(s.drop_last()) + if s.last() {
            1nat
        } else {
            0nat
        }
    }
}

/// How many buffers hold at least one reading.
pub open spec fn count_nonempty(s: Seq<Seq<i32>>) -> nat
    decreases s.len(),
{
    if s.len() == 0 {
        0
    } else {
        count_nonempty(s.drop_last()) + if s.last().len() > 0 {
            1nat
        } else {
            0nat
        }
    }
}

/// One emitted frame: raw counts of every channel that contributed.
///
/// EEG counts are relative to the zero offset; multiply by
/// `resolution.scale_factor()` for microvolts.
#[derive(Debug)]
pub struct MuseProcessedData {
    pub eeg: Vec<Vec<i32>>,
    pub ppg_ir: Vec<i32>,
    pub ppg_red: Vec<i32>,
    pub ppg_nir: Vec<i32>,
    pub spo2: Option<Fraction>,
    /// The variant measures near-infrared and all three optical series are
    /// present, so a hemodynamic estimate applies to this frame.
    pub fnirs_applicable: bool,
    pub accel: MotionVector,
    pub gyro: MotionVector,
    pub timestamp_us: u64,
    pub resolution: EegResolution,
    pub packet_types: Vec<MusePacketType>,
}

/// The mathematical content of a frame.
pub struct FrameView {
    pub eeg: Seq<Seq<i32>>,
    pub ppg_ir: Seq<i32>,
    pub ppg_red: Seq<i32>,
    pub ppg_nir: Seq<i32>,
    pub spo2: Option<Fraction>,
    pub fnirs_applicable: bool,
    pub accel: MotionVector,
    pub gyro: MotionVector,
    pub timestamp_us: u64,
    pub resolution: EegResolution,
    pub packet_types: Seq<MusePacketType>,
}

/// The contents of each buffer of a list of buffers.
pub open spec fn rows_view(rows: Seq<Vec<i32>>) -> Seq<Seq<i32>> {
    rows.map_values(|v: Vec<i32>| v@)
}

pub proof fn lemma_rows_view_push(rows: Seq<Vec<i32>>, v: Vec<i32>)
    ensures
        rows_view(rows.push(v)) == rows_view(rows).push(v@),
{
    assert(rows_view(rows.push(v)) =~= rows_view(rows).push(v@));
}

pub proof fn lemma_rows_view_update(rows: Seq<Vec<i32>>, i: int, v: Vec<i32>)
    requires
        0 <= i < rows.len(),
    ensures
        rows_view(rows.update(i, v)) == rows_view(rows).update(i, v@),
{
    assert(rows_view(rows.update(i, v)) =~= rows_view(rows).update(i, v@));
}

impl View for MuseProcessedData {
    type V = FrameView;

    open spec fn view(&self) -> FrameView {
        FrameView {
            eeg: rows_view(self.eeg@),
            ppg_ir: self.ppg_ir@,
            ppg_red: self.ppg_red@,
            ppg_nir: self.ppg_nir@,
            spo2: self.spo2,
            fnirs_applicable: self.fnirs_applicable,
            accel: self.accel,
            gyro: self.gyro,
            timestamp_us: self.timestamp_us,
            resolution: self.resolution,
            packet_types: self.packet_types@,
        }
    }
}

/// The view of an optional frame.
pub open spec fn opt_frame_view(f: Option<MuseProcessedData>) -> Option<FrameView> {
    match f {
        Some(d) => Some(d@),
        None => None,
    }
}

/// The frame emitted when every required EEG channel has arrived.
pub open spec fn eeg_frame(
    rows: Seq<Seq<i32>>,
    accel: MotionVector,
    gyro: MotionVector,
    timestamp_us: u64,
    resolution: EegResolution,
) -> FrameView {
    FrameView {
        eeg: rows,
        ppg_ir: Seq::empty(),
        ppg_red: Seq::empty(),
        ppg_nir: Seq::empty(),
        spo2: None,
        fnirs_applicable: false,
        accel,
        gyro,
        timestamp_us,
        resolution,
        packet_types: seq![MusePacketType::Eeg],
    }
}

/// The frame emitted for each accelerometer or gyroscope packet.
pub open spec fn motion_frame(
    kind: MusePacketType,
    accel: MotionVector,
    gyro: MotionVector,
    timestamp_us: u64,
    resolution: EegResolution,
) -> FrameView {
    FrameView {
        eeg: Seq::empty(),
        ppg_ir: Seq::empty(),
        ppg_red: Seq::empty(),
        ppg_nir: Seq::empty(),
        spo2: None,
        fnirs_applicable: false,
        accel,
        gyro,
        timestamp_us,
        resolution,
        packet_types: seq![kind],
    }
}

/// The frame emitted when enough optical channels hold readings.
pub open spec fn ppg_frame(
    model: MuseModel,
    ppg: Seq<Seq<i32>>,
    timestamp_us: u64,
) -> FrameView {
    let count = model.spec_ppg_channel_count();
    let ir = ppg[0];
    let red = if count >= 2 { ppg[1] } else { Seq::<i32>::empty() };
    let nir = if count >= 3 { ppg[2] } else { Seq::<i32>::empty() };
    FrameView {
        eeg: Seq::empty(),
        ppg_ir: ir,
        ppg_red: red,
        ppg_nir: nir,
        spo2: spo2_spec(ir, red),
        fnirs_applicable: model.spec_has_fnirs() && count >= 3,
        accel: MotionVector::spec_zero(),
        gyro: MotionVector::spec_zero(),
        timestamp_us,
        resolution: model.spec_resolution(),
        packet_types: if model.spec_has_fnirs() {
            seq![MusePacketType::Fnirs]
        } else {
            seq![MusePacketType::Ppg]
        },
    }
}

/// The mathematical content of the aggregator.
pub struct MuseStateView {
    pub model: MuseModel,
    pub eeg: Seq<Seq<i32>>,
    pub received: Seq<bool>,
    pub accel: MotionVector,
    pub gyro: MotionVector,
    pub ppg: Seq<Seq<i32>>,
    pub package_count: u16,
}

pub open spec fn empty_rows(n: nat) -> Seq<Seq<i32>> {
    Seq::new(n, |i: int| Seq::<i32>::empty())
}

pub open spec fn no_flags(n: nat) -> Seq<bool> {
    Seq::new(n, |i: int| false)
}

/// The state of a freshly initialised aggregator.
pub open spec fn initial_view(model: MuseModel) -> MuseStateView {
    MuseStateView {
        model,
        eeg: empty_rows(MAX_EEG_CHANNELS as nat),
        received: no_flags(MAX_EEG_CHANNELS as nat),
        accel: MotionVector::spec_zero(),
        gyro: MotionVector::spec_zero(),
        ppg: empty_rows(MAX_PPG_CHANNELS as nat),
        package_count: 0,
    }
}

impl MuseStateView {
    /// Buffers exist for every possible channel; those beyond the variant's
    /// counts stay empty, and an optical buffer holds one packet at most.
    pub open spec fn wf(self) -> bool {
        &&& self.eeg.len() == MAX_EEG_CHANNELS
        &&& self.received.len() == MAX_EEG_CHANNELS
        &&& self.ppg.len() == MAX_PPG_CHANNELS
        &&& forall|i: int|
            self.model.spec_channel_count() <= i < MAX_EEG_CHANNELS ==> #[trigger] self.eeg[i].len()
                == 0
        &&& forall|i: int|
            self.model.spec_channel_count() <= i < MAX_EEG_CHANNELS ==> !#[trigger] self.received[i]
        &&& forall|i: int| 0 <= i < MAX_PPG_CHANNELS ==> #[trigger] self.ppg[i].len() <= 6
        &&& forall|i: int|
            self.model.spec_ppg_channel_count() <= i < MAX_PPG_CHANNELS ==> #[trigger] self.ppg[i].len()
                == 0
    }

    /// An EEG packet for channel `ch`: its samples are appended to the
    /// channel's buffer and the channel is marked received. Once enough
    /// channels are marked, a frame with the buffers of the variant's
    /// channels is emitted and every EEG buffer and flag is reset.
    pub open spec fn eeg_step(self, ch: int, data: Seq<u8>, timestamp_us: u64) -> (
        MuseStateView,
        Option<FrameView>,
    ) {
        let n = self.model.spec_channel_count();
        if ch < 0 || ch >= n {
            (self, None)
        } else {
            let resolution = self.model.spec_resolution();
            let eeg = self.eeg.update(
                ch,
                self.eeg[ch] + eeg_decode(data.subrange(2, data.len() as int), resolution),
            );
            let received = self.received.update(ch, true);
            let next = MuseStateView {
                eeg,
                received,
                package_count: (data[0] * 256 + data[1]) as u16,
                ..self
            };
            if count_true(received.take(n as int)) >= spec_required_channels(n) {
                (
                    MuseStateView {
                        eeg: empty_rows(MAX_EEG_CHANNELS as nat),
                        received: no_flags(MAX_EEG_CHANNELS as nat),
                        ..next
                    },
                    Some(eeg_frame(eeg.take(n as int), self.accel, self.gyro, timestamp_us, resolution)),
                )
            } else {
                (next, None)
            }
        }
    }

    /// An accelerometer packet replaces the latched acceleration and is
    /// emitted at once.
    pub open spec fn accel_step(self, data: Seq<u8>, timestamp_us: u64) -> (
        MuseStateView,
        Option<FrameView>,
    ) {
        let accel = motion_at(data, 14);
        (
            MuseStateView { accel, ..self },
            Some(
                motion_frame(
                    MusePacketType::Accel,
                    accel,
                    MotionVector::spec_zero(),
                    timestamp_us,
                    self.model.spec_resolution(),
                ),
            ),
        )
    }

    /// A gyroscope packet replaces the latched rotation and is emitted at
    /// once.
    pub open spec fn gyro_step(self, data: Seq<u8>, timestamp_us: u64) -> (
        MuseStateView,
        Option<FrameView>,
    ) {
        let gyro = motion_at(data, 14);
        (
            MuseStateView { gyro, ..self },
            Some(
                motion_frame(
                    MusePacketType::Gyro,
                    MotionVector::spec_zero(),
                    gyro,
                    timestamp_us,
                    self.model.spec_resolution(),
                ),
            ),
        )
    }

    /// An optical packet replaces the readings of its channel. Once two of
    /// the variant's optical buffers hold readings, a frame is emitted and
    /// every optical buffer is cleared.
    pub open spec fn ppg_step(self, idx: int, data: Seq<u8>, timestamp_us: u64) -> (
        MuseStateView,
        Option<FrameView>,
    ) {
        let count = self.model.spec_ppg_channel_count();
        if idx < 0 || idx >= count || !self.model.spec_has_ppg() {
            (self, None)
        } else {
            let ppg = self.ppg.update(idx, ppg_decode(data.subrange(2, data.len() as int)));
            if count_nonempty(ppg.take(count as int)) >= 2 {
                (
                    MuseStateView { ppg: empty_rows(MAX_PPG_CHANNELS as nat), ..self },
                    Some(ppg_frame(self.model, ppg, timestamp_us)),
                )
            } else {
                (MuseStateView { ppg, ..self }, None)
            }
        }
    }

    /// One packet. A payload that is not exactly `PACKET_LEN` bytes long, or
    /// a channel that the variant does not have, changes nothing.
    pub open spec fn step(self, channel: int, data: Seq<u8>, timestamp_us: u64) -> (
        MuseStateView,
        Option<FrameView>,
    ) {
        if data.len() != PACKET_LEN {
            (self, None)
        } else {
            match spec_classify(channel, self.model) {
                ChannelKind::Eeg(ch) => self.eeg_step(ch as int, data, timestamp_us),
                ChannelKind::Accelerometer => self.accel_step(data, timestamp_us),
                ChannelKind::Gyroscope => self.gyro_step(data, timestamp_us),
                ChannelKind::Optical(idx) => self.ppg_step(idx as int, data, timestamp_us),
                ChannelKind::Unrecognized => (self, None),
            }
        }
    }
}

} // verus!
