//! Performance analysis of a mono recording in exact fixed-point arithmetic:
//! fundamental pitch, note onsets and the loudness of each note.
//!
//! Every quantity is a whole number in a stated unit (see [`fixed`]):
//! amplitudes in millionths of full scale, frequencies in millihertz, times
//! in microseconds, ratios in millionths, levels in tenths of a decibel and
//! intervals in cents. Each result is therefore an exact function of the
//! input, and the contract of each function states it.
//!
//! - [`pitch`]: the YIN pitch detector.
//! - [`onset`]: the onset detector, on the magnitude spectra of the frames.
//! - [`dynamics`]: the loudness of each note between onsets.
//! - [`analysis`]: the three of them on one recording.
//! - [`level`], [`decibel`], [`velocity`], [`note`], [`cents`]: levels, their
//!   decibels and velocities, MIDI notes and tuning.
//! - [`waveform`]: the overview of a signal for an image.
//! - [`fixed`], [`power`]: units and arithmetic.
//! - [`decibel_edges`], [`velocity_edges`], [`cent_edges`]: the brackets of
//!   the irrational edges between tenths of a decibel, between velocities and
//!   between cents.

pub mod fixed;
pub mod power;
pub mod level;
pub mod decibel;
pub mod decibel_edges;
pub mod velocity;
pub mod velocity_edges;
pub mod note;
pub mod cents;
pub mod cent_edges;
pub mod pitch;
pub mod onset;
pub mod dynamics;
pub mod analysis;
pub mod waveform;
