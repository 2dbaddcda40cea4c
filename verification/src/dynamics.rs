//! The loudness of each note: the level of the signal from one onset to the
//! next.

use vstd::prelude::*;
use vstd::slice::slice_subrange;
use crate::decibel::{amplitude_to_db, decibels_of, is_decibels, lemma_decibels_unique};
use crate::velocity::{amplitude_to_velocity, is_velocity, velocity_of_amplitude};
use crate::level::{calculate_rms, find_peak, lemma_rms_at_most_peak, peak_of, rms_of};
use crate::onset::{within_buffer, well_spaced, OnsetEvent};

verus! {

/// The loudness of one note.
#[derive(Debug, Clone, Copy, PartialEq, Eq)]
pub struct DynamicsEvent {
    /// The time of the onset of the note, in microseconds.
    pub timestamp: u64,
    /// The RMS level of the note, in amplitude units.
    pub rms_level: u32,
    /// The largest magnitude in the note, in amplitude units.
    pub peak_level: u32,
    /// The RMS level in tenths of a decibel relative to full scale.
    pub db_level: i32,
    /// The MIDI velocity that stands for the RMS level, 0 to 127.
    pub midi_velocity: u8,
}

/// Where the note of onset `i` ends: at the next onset, or with the buffer.
pub open spec fn segment_end(onsets: Seq<OnsetEvent>, len: int, i: int) -> int {
    if i + 1 < onsets.len() {
        onsets[i + 1].sample_index as int
    } else {
        len
    }
}

/// The onsets are in order and within a buffer of `len` samples.
pub open spec fn onsets_in_order(onsets: Seq<OnsetEvent>, len: int) -> bool {
    forall|i: int|
        0 <= i < onsets.len() ==> (#[trigger] onsets[i]).sample_index <= segment_end(
            onsets,
            len,
            i,
        ) <= len
}

/// Whether the onsets are in order and within a buffer of `len` samples.
pub fn onsets_are_in_order(onsets: &[OnsetEvent], len: usize) -> (r: bool)
    ensures
        r == onsets_in_order(onsets@, len as int),
{
    let mut i: usize = 0;
    while i < onsets.len()
        invariant
            i <= onsets.len(),
            forall|j: int|
                0 <= j < i ==> (#[trigger] onsets@[j]).sample_index <= segment_end(
                    onsets@,
                    len as int,
                    j,
                ) <= len,
        decreases onsets.len() - i,
    {
        let end: usize = if i + 1 < onsets.len() {
            onsets[i + 1].sample_index
        } else {
            len
        };
        if onsets[i].sample_index > end || end > len {
            assert(!(onsets@[i as int].sample_index <= segment_end(onsets@, len as int, i as int)
                <= len));
            return false;
        }
        i = i + 1;
    }
    true
}

/// Onsets that are spaced in samples and lie within the buffer are in order:
/// what the onset detector returns can be handed on as it is.
pub proof fn lemma_detected_onsets_are_in_order(onsets: Seq<OnsetEvent>, gap: u64, len: int)
    requires
        well_spaced(onsets, gap),
        within_buffer(onsets, len),
    ensures
        onsets_in_order(onsets, len),
{
    assert forall|i: int| 0 <= i < onsets.len() implies (#[trigger] onsets[i]).sample_index
        <= segment_end(onsets, len, i) <= len by {
        if i + 1 < onsets.len() {
            assert(onsets[i].sample_index < onsets[i + 1].sample_index);
            assert(onsets[i + 1].sample_index < len);
        } else {
            assert(onsets[i].sample_index < len);
        }
    }
}

/// The samples of the note of onset `i`.
pub open spec fn segment_of(x: Seq<i32>, onsets: Seq<OnsetEvent>, i: int) -> Seq<i32> {
    x.subrange(onsets[i].sample_index as int, segment_end(onsets, x.len() as int, i))
}

/// `event` is the loudness of the note of onset `i`.
pub open spec fn is_dynamics_of(
    event: DynamicsEvent,
    x: Seq<i32>,
    onsets: Seq<OnsetEvent>,
    i: int,
) -> bool {
    let segment = segment_of(x, onsets, i);
    &&& event.timestamp == onsets[i].timestamp
    &&& event.rms_level as nat == rms_of(segment)
    &&& event.peak_level as nat == peak_of(segment)
    &&& event.db_level as int == decibels_of(rms_of(segment))
    &&& is_decibels(rms_of(segment), event.db_level as int)
    &&& event.midi_velocity as int == velocity_of_amplitude(rms_of(segment))
    &&& is_velocity(rms_of(segment), event.midi_velocity as int)
}

/// The loudness of each note, one event for each onset and in their order.
/// The note of an onset lasts to the next onset, the last one to the end of
/// the buffer.
pub fn analyze_dynamics(audio: &[i32], onsets: &[OnsetEvent], sample_rate: u32) -> (events: Vec<
    DynamicsEvent,
>)
    requires
        onsets_in_order(onsets@, audio.len() as int),
    ensures
        events.len() == onsets.len(),
        forall|i: int|
            0 <= i < events.len() ==> is_dynamics_of(#[trigger] events[i], audio@, onsets@, i),
        forall|i: int|
            0 <= i < events.len() ==> (#[trigger] events[i]).rms_level <= events[i].peak_level,
{
    let mut events: Vec<DynamicsEvent> = Vec::new();
    let mut i: usize = 0;
    while i < onsets.len()
        invariant
            i <= onsets.len(),
            onsets_in_order(onsets@, audio.len() as int),
            events.len() == i,
            forall|j: int|
                0 <= j < i ==> is_dynamics_of(#[trigger] events[j], audio@, onsets@, j),
            forall|j: int| 0 <= j < i ==> (#[trigger] events[j]).rms_level <= events[j].peak_level,
        decreases onsets.len() - i,
    {
        let start: usize = onsets[i].sample_index;
        let end: usize = if i + 1 < onsets.len() {
            onsets[i + 1].sample_index
        } else {
            audio.len()
        };
        assert(onsets@[i as int].sample_index <= segment_end(
            onsets@,
            audio.len() as int,
            i as int,
        ) <= audio.len());
        let segment: &[i32] = slice_subrange(audio, start, end);
        let rms: u32 = calculate_rms(segment);
        let peak: u32 = find_peak(segment);
        let db: i32 = amplitude_to_db(rms);
        let velocity: u8 = amplitude_to_velocity(rms);
        proof {
            lemma_decibels_unique(rms as nat, db as int);
            lemma_rms_at_most_peak(segment@, peak as nat);
        }
        let event = DynamicsEvent {
            timestamp: onsets[i].timestamp,
            rms_level: rms,
            peak_level: peak,
            db_level: db,
            midi_velocity: velocity,
        };
        assert(is_dynamics_of(event, audio@, onsets@, i as int));
        let ghost before = events@;
        events.push(event);
        assert forall|j: int| 0 <= j < i + 1 implies is_dynamics_of(
            #[trigger] events[j],
            audio@,
            onsets@,
            j,
        ) by {
            if j < i {
                assert(events[j] == before[j]);
                assert(is_dynamics_of(before[j], audio@, onsets@, j));
            }
        }
        assert forall|j: int| 0 <= j < i + 1 implies (#[trigger] events[j]).rms_level
            <= events[j].peak_level by {
            if j < i {
                assert(events[j] == before[j]);
            }
        }
        i = i + 1;
    }
    events
}

} // verus!
