//! The executable aggregator, proved against the transitions of
//! `MuseStateView`.
use vstd::prelude::*;
use crate::aggregator::{
    classify_channel, count_nonempty, count_true, empty_rows, initial_view, no_flags,
    lemma_rows_view_push, lemma_rows_view_update, opt_frame_view,
    required_channels, rows_view, ChannelKind, MuseProcessedData,
    motion_frame, MuseStateView, MAX_EEG_CHANNELS, MAX_PPG_CHANNELS, PACKET_LEN,
};
use crate::decode::{parse_eeg_samples, parse_motion_samples, parse_ppg_samples, MotionVector};
use crate::device::{EegResolution, MuseModel, MusePacketType};
use crate::metrics::calculate_spo2;

verus! {

/// The decoding state of one session with one headband.
pub struct MuseState {
    model: MuseModel,
    eeg_buffers: Vec<Vec<i32>>,
    received_eeg_channels: Vec<bool>,
    accel_buffer: MotionVector,
    gyro_buffer: MotionVector,
    ppg_buffer: Vec<Vec<i32>>,
    package_count: u16,
}

impl View for MuseState {
    type V = MuseStateView;

    closed spec fn view(&self) -> MuseStateView {
        MuseStateView {
            model: self.model,
            eeg: rows_view(self.eeg_buffers@),
            received: self.received_eeg_channels@,
            accel: self.accel_buffer,
            gyro: self.gyro_buffer,
            ppg: rows_view(self.ppg_buffer@),
            package_count: self.package_count,
        }
    }
}

proof fn lemma_count_true_step(s: Seq<bool>, i: int)
    requires
        0 <= i < s.len(),
    ensures
        count_true(s.take(i + 1)) == count_true(s.take(i)) + if s[i] {
            1nat
        } else {
            0nat
        },
{
    assert(s.take(i + 1).drop_last() =~= s.take(i));
}

proof fn lemma_count_nonempty_step(s: Seq<Seq<i32>>, i: int)
    requires
        0 <= i < s.len(),
    ensures
        count_nonempty(s.take(i + 1)) == count_nonempty(s.take(i)) + if s[i].len() > 0 {
            1nat
        } else {
            0nat
        },
{
    assert(s.take(i + 1).drop_last() =~= s.take(i));
}

/// `n` empty buffers.
fn new_buffers(n: usize) -> (r: Vec<Vec<i32>>)
    ensures
        rows_view(r@) == empty_rows(n as nat),
{
    let mut rows: Vec<Vec<i32>> = Vec::with_capacity(n);
    let mut i: usize = 0;
    while i < n
        invariant
            i <= n,
            rows_view(rows@) =~= empty_rows(i as nat),
        decreases n - i,
    {
        let empty: Vec<i32> = Vec::new();
        proof {
            lemma_rows_view_push(rows@, empty);
        }
        rows.push(empty);
        i = i + 1;
    }
    rows
}

/// `n` cleared flags.
fn new_flags(n: usize) -> (r: Vec<bool>)
    ensures
        r@ == no_flags(n as nat),
{
    let mut flags: Vec<bool> = Vec::with_capacity(n);
    let mut i: usize = 0;
    while i < n
        invariant
            i <= n,
            flags@ =~= no_flags(i as nat),
        decreases n - i,
    {
        flags.push(false);
        i = i + 1;
    }
    flags
}

/// A copy of a series.
fn copy_series(v: &Vec<i32>) -> (r: Vec<i32>)
    ensures
        r@ == v@,
{
    let mut out: Vec<i32> = Vec::with_capacity(v.len());
    let mut i: usize = 0;
    while i < v.len()
        invariant
            i <= v@.len(),
            out@ =~= v@.take(i as int),
        decreases v@.len() - i,
    {
        out.push(v[i]);
        i = i + 1;
    }
    assert(v@.take(v@.len() as int) =~= v@);
    out
}

/// A vector holding one tag.
fn single_tag(t: MusePacketType) -> (r: Vec<MusePacketType>)
    ensures
        r@ == seq![t],
{
    let mut v: Vec<MusePacketType> = Vec::new();
    v.push(t);
    assert(v@ =~= seq![t]);
    v
}

/// A frame that carries one motion reading.
fn new_motion_frame(
    kind: MusePacketType,
    accel: MotionVector,
    gyro: MotionVector,
    timestamp_us: u64,
    resolution: EegResolution,
) -> (r: MuseProcessedData)
    ensures
        r@ == motion_frame(kind, accel, gyro, timestamp_us, resolution),
{
    let frame = MuseProcessedData {
        eeg: Vec::new(),
        ppg_ir: Vec::new(),
        ppg_red: Vec::new(),
        ppg_nir: Vec::new(),
        spo2: None,
        fnirs_applicable: false,
        accel,
        gyro,
        timestamp_us,
        resolution,
        packet_types: single_tag(kind),
    };
    assert(frame@.eeg =~= Seq::<Seq<i32>>::empty());
    frame
}

impl MuseState {
    pub open spec fn wf(&self) -> bool {
        self@.wf()
    }

    /// A fresh aggregator for `model`, with every buffer empty.
    pub fn new(model: MuseModel) -> (r: MuseState)
        ensures
            r@ == initial_view(model),
            r.wf(),
    {
        MuseState {
            model,
            eeg_buffers: new_buffers(MAX_EEG_CHANNELS),
            received_eeg_channels: new_flags(MAX_EEG_CHANNELS),
            accel_buffer: MotionVector::zero(),
            gyro_buffer: MotionVector::zero(),
            ppg_buffer: new_buffers(MAX_PPG_CHANNELS),
            package_count: 0,
        }
    }

    /// The variant this state decodes for.
    pub fn model(&self) -> (r: MuseModel)
        ensures
            r == self@.model,
    {
        self.model
    }

    /// Number of EEG channels of the variant.
    pub fn channel_count(&self) -> (r: usize)
        ensures
            r == self@.model.spec_channel_count(),
    {
        self.model.channel_count()
    }

    /// Number of optical channels of the variant.
    pub fn ppg_channel_count(&self) -> (r: usize)
        ensures
            r == self@.model.spec_ppg_channel_count(),
    {
        self.model.ppg_channel_count()
    }

    /// Decodes an EEG packet for `channel` and emits a frame once every
    /// required channel has arrived.
    pub fn parse_eeg_channel(&mut self, channel: usize, data: &[u8], timestamp_us: u64) -> (r:
        Option<MuseProcessedData>)
        requires
            old(self).wf(),
            data@.len() >= 2,
        ensures
            final(self).wf(),
            (final(self)@, opt_frame_view(r)) == old(self)@.eeg_step(
                channel as int,
                data@,
                timestamp_us,
            ),
    {
        let channel_count = self.channel_count();
        if channel >= channel_count {
            return None;
        }
        let ghost before = self@;
        self.package_count = (data[0] as u16) * 256 + (data[1] as u16);
        let resolution = self.model.resolution();
        let mut samples = parse_eeg_samples(
            vstd::slice::slice_subrange(data, 2, data.len()),
            resolution,
        );
        let mut buf: Vec<i32> = Vec::new();
        self.eeg_buffers.set_and_swap(channel, &mut buf);
        buf.append(&mut samples);
        self.eeg_buffers.set(channel, buf);
        self.received_eeg_channels.set(channel, true);
        assert(self@.eeg =~= before.eeg.update(
            channel as int,
            before.eeg[channel as int] + crate::decode::eeg_decode(
                data@.subrange(2, data@.len() as int),
                resolution,
            ),
        ));

        let mut active: usize = 0;
        let mut i: usize = 0;
        while i < channel_count
            invariant
                i <= channel_count <= MAX_EEG_CHANNELS,
                self.received_eeg_channels@.len() == MAX_EEG_CHANNELS,
                active == count_true(self.received_eeg_channels@.take(i as int)),
                active <= i,
            decreases channel_count - i,
        {
            proof {
                lemma_count_true_step(self.received_eeg_channels@, i as int);
            }
            if self.received_eeg_channels[i] {
                active = active + 1;
            }
            i = i + 1;
        }
        let required = required_channels(channel_count);
        if active >= required {
            let mut eeg = new_buffers(MAX_EEG_CHANNELS);
            std::mem::swap(&mut self.eeg_buffers, &mut eeg);
            let ghost full = eeg@;
            eeg.truncate(channel_count);
            assert(rows_view(eeg@) =~= rows_view(full).take(channel_count as int));
            self.received_eeg_channels = new_flags(MAX_EEG_CHANNELS);
            Some(
                MuseProcessedData {
                    eeg,
                    ppg_ir: Vec::new(),
                    ppg_red: Vec::new(),
                    ppg_nir: Vec::new(),
                    spo2: None,
                    fnirs_applicable: false,
                    accel: self.accel_buffer,
                    gyro: self.gyro_buffer,
                    timestamp_us,
                    resolution,
                    packet_types: single_tag(MusePacketType::Eeg),
                },
            )
        } else {
            None
        }
    }

    /// Decodes an accelerometer packet; it is emitted at once.
    pub fn parse_accel_data(&mut self, data: &[u8], timestamp_us: u64) -> (r: Option<
        MuseProcessedData,
    >)
        requires
            old(self).wf(),
            data@.len() >= 20,
        ensures
            final(self).wf(),
            (final(self)@, opt_frame_view(r)) == old(self)@.accel_step(data@, timestamp_us),
    {
        self.accel_buffer = parse_motion_samples(data);
        Some(
            new_motion_frame(
                MusePacketType::Accel,
                self.accel_buffer,
                MotionVector::zero(),
                timestamp_us,
                self.model.resolution(),
            ),
        )
    }

    /// Decodes a gyroscope packet; it is emitted at once.
    pub fn parse_gyro_data(&mut self, data: &[u8], timestamp_us: u64) -> (r: Option<
        MuseProcessedData,
    >)
        requires
            old(self).wf(),
            data@.len() >= 20,
        ensures
            final(self).wf(),
            (final(self)@, opt_frame_view(r)) == old(self)@.gyro_step(data@, timestamp_us),
    {
        self.gyro_buffer = parse_motion_samples(data);
        Some(
            new_motion_frame(
                MusePacketType::Gyro,
                MotionVector::zero(),
                self.gyro_buffer,
                timestamp_us,
                self.model.resolution(),
            ),
        )
    }

    /// Decodes an optical packet for optical channel `ppg_idx` and emits a
    /// frame once two of the variant's optical channels hold readings.
    pub fn parse_ppg_data(&mut self, ppg_idx: usize, data: &[u8], timestamp_us: u64) -> (r:
        Option<MuseProcessedData>)
        requires
            old(self).wf(),
            data@.len() == PACKET_LEN,
        ensures
            final(self).wf(),
            (final(self)@, opt_frame_view(r)) == old(self)@.ppg_step(
                ppg_idx as int,
                data@,
                timestamp_us,
            ),
    {
        let ppg_count = self.ppg_channel_count();
        if ppg_idx >= ppg_count || !self.model.has_ppg() {
            return None;
        }
        let values = parse_ppg_samples(vstd::slice::slice_subrange(data, 2, data.len()));
        proof {
            lemma_rows_view_update(self.ppg_buffer@, ppg_idx as int, values);
        }
        self.ppg_buffer.set(ppg_idx, values);

        let mut filled: usize = 0;
        let mut i: usize = 0;
        while i < ppg_count
            invariant
                i <= ppg_count <= MAX_PPG_CHANNELS,
                self.ppg_buffer@.len() == MAX_PPG_CHANNELS,
                filled == count_nonempty(rows_view(self.ppg_buffer@).take(i as int)),
                filled <= i,
            decreases ppg_count - i,
        {
            proof {
                lemma_count_nonempty_step(rows_view(self.ppg_buffer@), i as int);
            }
            if self.ppg_buffer[i].len() > 0 {
                filled = filled + 1;
            }
            i = i + 1;
        }
        if filled >= 2 {
            let ppg_ir = copy_series(&self.ppg_buffer[0]);
            let ppg_red = if ppg_count >= 2 {
                copy_series(&self.ppg_buffer[1])
            } else {
                Vec::new()
            };
            let ppg_nir = if ppg_count >= 3 {
                copy_series(&self.ppg_buffer[2])
            } else {
                Vec::new()
            };
            let spo2 = calculate_spo2(&ppg_ir, &ppg_red);
            let has_fnirs = self.model.has_fnirs();
            let tag = if has_fnirs {
                MusePacketType::Fnirs
            } else {
                MusePacketType::Ppg
            };
            self.ppg_buffer = new_buffers(MAX_PPG_CHANNELS);
            let frame = MuseProcessedData {
                eeg: Vec::new(),
                ppg_ir,
                ppg_red,
                ppg_nir,
                spo2,
                fnirs_applicable: has_fnirs && ppg_count >= 3,
                accel: MotionVector::zero(),
                gyro: MotionVector::zero(),
                timestamp_us,
                resolution: self.model.resolution(),
                packet_types: single_tag(tag),
            };
            assert(frame@.eeg =~= Seq::<Seq<i32>>::empty());
            Some(frame)
        } else {
            None
        }
    }

    /// Decodes one packet received on `channel`. A payload that is not
    /// exactly `PACKET_LEN` bytes long, or a channel that the variant does
    /// not have, is ignored.
    pub fn parse_packet(&mut self, channel: i32, data: &[u8], timestamp_us: u64) -> (r: Option<
        MuseProcessedData,
    >)
        requires
            old(self).wf(),
        ensures
            final(self).wf(),
            (final(self)@, opt_frame_view(r)) == old(self)@.step(
                channel as int,
                data@,
                timestamp_us,
            ),
    {
        if data.len() != PACKET_LEN {
            return None;
        }
        match classify_channel(channel, self.model) {
            ChannelKind::Eeg(ch) => self.parse_eeg_channel(ch, data, timestamp_us),
            ChannelKind::Accelerometer => self.parse_accel_data(data, timestamp_us),
            ChannelKind::Gyroscope => self.parse_gyro_data(data, timestamp_us),
            ChannelKind::Optical(idx) => self.parse_ppg_data(idx, data, timestamp_us),
            ChannelKind::Unrecognized => None,
        }
    }

    /// Number of samples waiting in the buffer of EEG channel `channel`.
    pub fn buffered_eeg_samples(&self, channel: usize) -> (r: usize)
        requires
            self.wf(),
            channel < MAX_EEG_CHANNELS,
        ensures
            r == self@.eeg[channel as int].len(),
    {
        self.eeg_buffers[channel].len()
    }

    /// Whether EEG channel `channel` has arrived since the last frame.
    pub fn is_channel_received(&self, channel: usize) -> (r: bool)
        requires
            self.wf(),
            channel < MAX_EEG_CHANNELS,
        ensures
            r == self@.received[channel as int],
    {
        self.received_eeg_channels[channel]
    }

    /// Number of readings waiting in the buffer of optical channel `idx`.
    pub fn buffered_ppg_samples(&self, idx: usize) -> (r: usize)
        requires
            self.wf(),
            idx < MAX_PPG_CHANNELS,
        ensures
            r == self@.ppg[idx as int].len(),
    {
        self.ppg_buffer[idx].len()
    }

    /// The latched accelerometer reading.
    pub fn latest_accel(&self) -> (r: MotionVector)
        ensures
            r == self@.accel,
    {
        self.accel_buffer
    }

    /// The latched gyroscope reading.
    pub fn latest_gyro(&self) -> (r: MotionVector)
        ensures
            r == self@.gyro,
    {
        self.gyro_buffer
    }

    /// The sequence counter of the last EEG packet.
    pub fn package_count(&self) -> (r: u16)
        ensures
            r == self@.package_count,
    {
        self.package_count
    }
}

} // verus!
