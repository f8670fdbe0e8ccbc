//! Properties of the decoder that hold for every input, proved over the
//! transitions of the aggregator.
use vstd::prelude::*;
use crate::aggregator::{
    count_true, eeg_frame, empty_rows, no_flags, spec_classify,
    ChannelKind, FrameView, MuseStateView, PACKET_LEN,
};
use crate::decode::{eeg_decode, motion_at};
use crate::device::EegResolution;
use crate::metrics::{spo2_spec, SPO2_MIN_SAMPLES};
use crate::session::session_step;

verus! {

/// A sequence of packets fed to one aggregator, each with its channel.
pub open spec fn run(s: MuseStateView, packets: Seq<(int, Seq<u8>)>, timestamp_us: u64) -> (
    MuseStateView,
    Seq<FrameView>,
)
    decreases packets.len(),
{
    if packets.len() == 0 {
        (s, Seq::empty())
    } else {
        let (mid, frames) = run(s, packets.drop_last(), timestamp_us);
        let (next, frame) = mid.step(packets.last().0, packets.last().1, timestamp_us);
        (
            next,
            frames + match frame {
                Some(f) => seq![f],
                None => Seq::empty(),
            },
        )
    }
}

proof fn lemma_count_true_le(s: Seq<bool>)
    ensures
        count_true(s) <= s.len(),
    decreases s.len(),
{
    if s.len() > 0 {
        lemma_count_true_le(s.drop_last());
    }
}

proof fn lemma_count_true_full(s: Seq<bool>)
    ensures
        (count_true(s) == s.len()) <==> (forall|i: int| 0 <= i < s.len() ==> s[i]),
    decreases s.len(),
{
    if s.len() > 0 {
        let t = s.drop_last();
        lemma_count_true_full(t);
        lemma_count_true_le(t);
        if forall|i: int| 0 <= i < s.len() ==> s[i] {
            assert forall|i: int| 0 <= i < t.len() implies t[i] by {
                assert(s[i]);
            }
        }
        if count_true(s) == s.len() {
            assert forall|i: int| 0 <= i < s.len() implies s[i] by {
                if i < t.len() {
                    assert(t[i]);
                }
            }
        }
    }
}

/// An EEG packet completes a frame exactly when, counting its own channel,
/// every EEG channel of the variant has arrived since the last frame. On a
/// four-channel variant that means channels 0 to 3.
pub proof fn lemma_eeg_completion_rule(s: MuseStateView, ch: int, data: Seq<u8>, timestamp_us: u64)
    requires
        s.wf(),
        data.len() == PACKET_LEN,
        0 <= ch < s.model.spec_channel_count(),
    ensures
        s.eeg_step(ch, data, timestamp_us).1 is Some <==> (forall|i: int|
            0 <= i < s.model.spec_channel_count() ==> i == ch || s.received[i]),
{
    let n = s.model.spec_channel_count();
    let received = s.received.update(ch, true);
    let prefix = received.take(n as int);
    lemma_count_true_full(prefix);
    lemma_count_true_le(prefix);
    assert((forall|i: int| 0 <= i < prefix.len() ==> prefix[i]) <==> (forall|i: int|
        0 <= i < n ==> i == ch || s.received[i])) by {
        if forall|i: int| 0 <= i < prefix.len() ==> prefix[i] {
            assert forall|i: int| 0 <= i < n implies i == ch || s.received[i] by {
                assert(prefix[i]);
            }
        }
        if forall|i: int| 0 <= i < n ==> i == ch || s.received[i] {
            assert forall|i: int| 0 <= i < prefix.len() implies prefix[i] by {
                assert(i == ch || s.received[i]);
            }
        }
    }
}

/// An EEG frame leaves every EEG buffer empty and every received flag
/// cleared, exactly as in a freshly initialised aggregator; the variant and
/// the latched motion readings are kept.
pub proof fn lemma_frame_resets(s: MuseStateView, ch: int, data: Seq<u8>, timestamp_us: u64)
    requires
        s.wf(),
        data.len() == PACKET_LEN,
        s.eeg_step(ch, data, timestamp_us).1 is Some,
    ensures
        ({
            let next = s.eeg_step(ch, data, timestamp_us).0;
            &&& next.eeg == empty_rows(7)
            &&& next.received == no_flags(7)
            &&& next.model == s.model
            &&& next.accel == s.accel
            &&& next.gyro == s.gyro
            &&& next.ppg == s.ppg
        }),
{
}

/// A payload that is not exactly `PACKET_LEN` bytes long yields no frame and
/// leaves the session as it was, initialised or not.
pub proof fn lemma_malformed_ignored(
    s: Option<MuseStateView>,
    channel: int,
    data: Seq<u8>,
    timestamp_us: u64,
)
    requires
        data.len() != PACKET_LEN,
    ensures
        session_step(s, channel, data, timestamp_us) == (s, None::<FrameView>),
{
}

/// A motion packet is decoded from its last reading alone: payloads that
/// agree on bytes 14 to 19 decode alike, whatever the two earlier readings.
pub proof fn lemma_motion_last_reading(a: Seq<u8>, b: Seq<u8>)
    requires
        a.len() >= PACKET_LEN,
        b.len() >= PACKET_LEN,
        a.subrange(14, 20) == b.subrange(14, 20),
    ensures
        motion_at(a, 14) == motion_at(b, 14),
{
    assert forall|k: int| 14 <= k < 20 implies a[k] == b[k] by {
        assert(a[k] == a.subrange(14, 20)[k - 14]);
        assert(b[k] == b.subrange(14, 20)[k - 14]);
    }
}

/// A well-formed EEG packet carries exactly twelve samples: six byte
/// triplets after the two-byte sequence counter.
pub proof fn lemma_eeg_packet_samples(data: Seq<u8>, resolution: EegResolution)
    requires
        data.len() == PACKET_LEN,
    ensures
        eeg_decode(data.subrange(2, data.len() as int), resolution).len() == 12,
{
}

/// The blood-oxygen estimate is undefined when either series is shorter
/// than the minimum.
pub proof fn lemma_spo2_short_undefined(ir: Seq<i32>, red: Seq<i32>)
    requires
        ir.len() < SPO2_MIN_SAMPLES || red.len() < SPO2_MIN_SAMPLES,
    ensures
        spo2_spec(ir, red) is None,
{
}

/// Every transition keeps the aggregator well formed.
pub proof fn lemma_step_wf(s: MuseStateView, channel: int, data: Seq<u8>, timestamp_us: u64)
    requires
        s.wf(),
    ensures
        s.step(channel, data, timestamp_us).0.wf(),
        s.step(channel, data, timestamp_us).0.model == s.model,
{
    let next = s.step(channel, data, timestamp_us).0;
    if data.len() == PACKET_LEN {
        match spec_classify(channel, s.model) {
            ChannelKind::Optical(idx) => {
                let payload = data.subrange(2, data.len() as int);
                assert(crate::decode::ppg_decode(payload).len() == 6);
                assert forall|i: int| 0 <= i < 3 implies #[trigger] next.ppg[i].len() <= 6 by {}
            },
            _ => {},
        }
    }
}

/// On a variant with `n` EEG channels, while some channel `c` has not
/// arrived, EEG packets for the other channels, in any order and any
/// number, never complete a frame. Afterwards `c` is still missing and every
/// channel that was fed is marked received.
pub proof fn lemma_partial_never_emits(
    s: MuseStateView,
    c: int,
    packets: Seq<(int, Seq<u8>)>,
    timestamp_us: u64,
)
    requires
        s.wf(),
        0 <= c < s.model.spec_channel_count(),
        !s.received[c],
        forall|j: int|
            0 <= j < packets.len() ==> 0 <= (#[trigger] packets[j]).0 < s.model.spec_channel_count()
                && packets[j].0 != c && packets[j].1.len() == PACKET_LEN,
    ensures
        run(s, packets, timestamp_us).1.len() == 0,
        run(s, packets, timestamp_us).0.wf(),
        run(s, packets, timestamp_us).0.model == s.model,
        !run(s, packets, timestamp_us).0.received[c],
        forall|j: int|
            0 <= j < packets.len() ==> run(s, packets, timestamp_us).0.received[(
            #[trigger] packets[j]).0],
    decreases packets.len(),
{
    if packets.len() > 0 {
        let init = packets.drop_last();
        assert forall|j: int| 0 <= j < init.len() implies 0 <= (#[trigger] init[j]).0
            < s.model.spec_channel_count() && init[j].0 != c && init[j].1.len() == PACKET_LEN by {
            assert(init[j] == packets[j]);
        }
        lemma_partial_never_emits(s, c, init, timestamp_us);
        let mid = run(s, init, timestamp_us).0;
        let (ch, data) = packets.last();
        assert(packets.last() == packets[packets.len() - 1]);
        lemma_step_wf(mid, ch, data, timestamp_us);
        assert(spec_classify(ch, mid.model) == ChannelKind::Eeg(ch as usize));
        lemma_eeg_completion_rule(mid, ch, data, timestamp_us);
        assert(!(c == ch || mid.received[c]));
        assert forall|j: int| 0 <= j < packets.len() implies run(
            s,
            packets,
            timestamp_us,
        ).0.received[(#[trigger] packets[j]).0] by {
            if j < init.len() {
                assert(init[j] == packets[j]);
                assert(mid.received[init[j].0]);
            }
        }
    }
}

/// One EEG packet per channel of the variant, channel `i` carrying
/// `payloads[i]`, in channel order.
pub open spec fn round_packets(payloads: Seq<Seq<u8>>) -> Seq<(int, Seq<u8>)> {
    Seq::new(payloads.len(), |i: int| (i, payloads[i]))
}

/// The frame that a round of `payloads` completes on a cleared aggregator.
pub open spec fn round_frame(s: MuseStateView, payloads: Seq<Seq<u8>>, timestamp_us: u64) -> FrameView {
    let resolution = s.model.spec_resolution();
    eeg_frame(
        Seq::new(
            payloads.len(),
            |i: int| eeg_decode(payloads[i].subrange(2, payloads[i].len() as int), resolution),
        ),
        s.accel,
        s.gyro,
        timestamp_us,
        resolution,
    )
}

/// No EEG sample is buffered and no channel is marked received.
pub open spec fn eeg_cleared(s: MuseStateView) -> bool {
    s.eeg == empty_rows(7) && s.received == no_flags(7)
}

proof fn lemma_count_prefix(m: nat, k: int)
    requires
        k >= 0,
    ensures
        count_true(Seq::new(m, |i: int| i < k)) == if m <= k {
            m as int
        } else {
            k
        },
    decreases m,
{
    if m > 0 {
        let s = Seq::new(m, |i: int| i < k);
        assert(s.drop_last() =~= Seq::new((m - 1) as nat, |i: int| i < k));
        lemma_count_prefix((m - 1) as nat, k);
    }
}

proof fn lemma_round_prefix(s: MuseStateView, payloads: Seq<Seq<u8>>, k: int, timestamp_us: u64)
    requires
        s.wf(),
        eeg_cleared(s),
        payloads.len() == s.model.spec_channel_count(),
        forall|i: int| 0 <= i < payloads.len() ==> (#[trigger] payloads[i]).len() == PACKET_LEN,
        0 <= k < payloads.len(),
    ensures
        ({
            let (st, frames) = run(s, round_packets(payloads).take(k), timestamp_us);
            &&& frames.len() == 0
            &&& st.wf()
            &&& st.model == s.model
            &&& st.accel == s.accel
            &&& st.gyro == s.gyro
            &&& st.eeg == Seq::new(
                7,
                |i: int|
                    if i < k {
                        eeg_decode(
                            payloads[i].subrange(2, payloads[i].len() as int),
                            s.model.spec_resolution(),
                        )
                    } else {
                        Seq::<i32>::empty()
                    },
            )
            &&& st.received == Seq::new(7, |i: int| i < k)
        }),
    decreases k,
{
    let resolution = s.model.spec_resolution();
    let packets = round_packets(payloads);
    if k == 0 {
        assert(packets.take(0) =~= Seq::<(int, Seq<u8>)>::empty());
        assert(s.eeg =~= Seq::new(
            7,
            |i: int|
                if i < k {
                    eeg_decode(payloads[i].subrange(2, payloads[i].len() as int), resolution)
                } else {
                    Seq::<i32>::empty()
                },
        ));
        assert(s.received =~= Seq::new(7, |i: int| i < k));
    } else {
        let j = k - 1;
        lemma_round_prefix(s, payloads, j, timestamp_us);
        assert(packets.take(k).drop_last() =~= packets.take(j));
        let mid = run(s, packets.take(j), timestamp_us).0;
        let data = payloads[j];
        assert(packets.take(k).last() == (j, data));
        lemma_step_wf(mid, j, data, timestamp_us);
        let n = s.model.spec_channel_count();
        let received = mid.received.update(j, true);
        assert(received =~= Seq::new(7, |i: int| i < k));
        assert(received.take(n as int) =~= Seq::new(n, |i: int| i < k));
        lemma_count_prefix(n, k);
        let st = run(s, packets.take(k), timestamp_us).0;
        assert(st.eeg =~= Seq::new(
            7,
            |i: int|
                if i < k {
                    eeg_decode(payloads[i].subrange(2, payloads[i].len() as int), resolution)
                } else {
                    Seq::<i32>::empty()
                },
        ));
    }
}

/// From a cleared aggregator, one EEG packet per channel of the variant, in
/// channel order, completes exactly one frame, whose rows are the packets'
/// decoded samples, and leaves the aggregator cleared again.
pub proof fn lemma_full_round(s: MuseStateView, payloads: Seq<Seq<u8>>, timestamp_us: u64)
    requires
        s.wf(),
        eeg_cleared(s),
        payloads.len() == s.model.spec_channel_count(),
        forall|i: int| 0 <= i < payloads.len() ==> (#[trigger] payloads[i]).len() == PACKET_LEN,
    ensures
        ({
            let (st, frames) = run(s, round_packets(payloads), timestamp_us);
            &&& frames == seq![round_frame(s, payloads, timestamp_us)]
            &&& st.wf()
            &&& eeg_cleared(st)
            &&& st.model == s.model
            &&& st.accel == s.accel
            &&& st.gyro == s.gyro
        }),
{
    let resolution = s.model.spec_resolution();
    let packets = round_packets(payloads);
    let n = s.model.spec_channel_count();
    let j = n - 1;
    lemma_round_prefix(s, payloads, j, timestamp_us);
    assert(packets.drop_last() =~= packets.take(j));
    let mid = run(s, packets.take(j), timestamp_us).0;
    let data = payloads[j];
    assert(packets.last() == (j, data));
    lemma_step_wf(mid, j, data, timestamp_us);
    let received = mid.received.update(j, true);
    assert(received.take(n as int) =~= Seq::new(n, |i: int| i < n));
    lemma_count_prefix(n, n as int);
    let eeg = mid.eeg.update(j, mid.eeg[j] + eeg_decode(data.subrange(2, data.len() as int), resolution));
    assert(eeg.take(n as int) =~= round_frame(s, payloads, timestamp_us).eeg);
    let frames = run(s, packets, timestamp_us).1;
    assert(frames =~= seq![round_frame(s, payloads, timestamp_us)]);
}

/// Feeding `a` and then `b` is feeding `a + b`.
pub proof fn lemma_run_append(
    s: MuseStateView,
    a: Seq<(int, Seq<u8>)>,
    b: Seq<(int, Seq<u8>)>,
    timestamp_us: u64,
)
    ensures
        run(s, a + b, timestamp_us) == ({
            let (mid, first) = run(s, a, timestamp_us);
            let (last, second) = run(mid, b, timestamp_us);
            (last, first + second)
        }),
    decreases b.len(),
{
    if b.len() == 0 {
        assert(a + b =~= a);
        let first = run(s, a, timestamp_us).1;
        assert(first + Seq::<FrameView>::empty() =~= first);
    } else {
        assert((a + b).drop_last() =~= a + b.drop_last());
        assert((a + b).last() == b.last());
        lemma_run_append(s, a, b.drop_last(), timestamp_us);
        let first = run(s, a, timestamp_us).1;
        let mid = run(s, a, timestamp_us).0;
        let second = run(mid, b.drop_last(), timestamp_us).1;
        let (next, frame) = run(mid, b.drop_last(), timestamp_us).0.step(
            b.last().0,
            b.last().1,
            timestamp_us,
        );
        let extra = match frame {
            Some(f) => seq![f],
            None => Seq::<FrameView>::empty(),
        };
        assert(first + second + extra =~= first + (second + extra));
    }
}

/// Because a frame clears the aggregator, a round fed twice emits the same
/// frame twice.
pub proof fn lemma_round_repeats(s: MuseStateView, payloads: Seq<Seq<u8>>, timestamp_us: u64)
    requires
        s.wf(),
        eeg_cleared(s),
        payloads.len() == s.model.spec_channel_count(),
        forall|i: int| 0 <= i < payloads.len() ==> (#[trigger] payloads[i]).len() == PACKET_LEN,
    ensures
        run(s, round_packets(payloads) + round_packets(payloads), timestamp_us).1 == seq![
            round_frame(s, payloads, timestamp_us),
            round_frame(s, payloads, timestamp_us),
        ],
{
    let packets = round_packets(payloads);
    lemma_run_append(s, packets, packets, timestamp_us);
    lemma_full_round(s, payloads, timestamp_us);
    let mid = run(s, packets, timestamp_us).0;
    lemma_full_round(mid, payloads, timestamp_us);
    assert(round_frame(mid, payloads, timestamp_us) == round_frame(s, payloads, timestamp_us));
    assert(seq![round_frame(s, payloads, timestamp_us)] + seq![round_frame(s, payloads, timestamp_us)]
        =~= seq![round_frame(s, payloads, timestamp_us), round_frame(s, payloads, timestamp_us)]);
}

} // verus!
