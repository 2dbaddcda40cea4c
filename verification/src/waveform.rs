//! Waveform overview: the signal reduced to one low and one high value for
//! each column of an image.

use vstd::prelude::*;

verus! {

/// Draws the overview of a recording.
pub struct WaveformGenerator;

/// The lowest left-channel sample among the frames `from..to`, and at most 0.
pub open spec fn lowest(x: Seq<i32>, channels: int, from: int, to: int) -> int
    decreases to - from,
{
    if from >= to {
        0
    } else {
        let rest = lowest(x, channels, from, to - 1);
        if x[(to - 1) * channels] < rest {
            x[(to - 1) * channels] as int
        } else {
            rest
        }
    }
}

/// The highest left-channel sample among the frames `from..to`, and at least
/// 0.
pub open spec fn highest(x: Seq<i32>, channels: int, from: int, to: int) -> int
    decreases to - from,
{
    if from >= to {
        0
    } else {
        let rest = highest(x, channels, from, to - 1);
        if x[(to - 1) * channels] > rest {
            x[(to - 1) * channels] as int
        } else {
            rest
        }
    }
}

/// The number of frames that one column stands for.
pub open spec fn frames_per_column(len: int, width: int, channels: int) -> int
    recommends
        width > 0,
        channels > 0,
{
    len / channels / width
}

/// The first bytes of every PNG file.
pub open spec fn png_signature() -> Seq<u8> {
    seq![137u8, 80u8, 78u8, 71u8, 13u8, 10u8, 26u8, 10u8]
}

impl WaveformGenerator {
    pub fn new() -> (generator: Self) {
        WaveformGenerator
    }

    /// The low and high value of each of `width` columns. Column `i` stands
    /// for the frames `i * n .. (i + 1) * n`, where `n` is the number of
    /// frames per column, and shows their left channel. Where there are fewer
    /// frames than columns, every column is flat.
    pub fn downsample_to_peaks(&self, samples: &[i32], width: usize, channels: usize) -> (peaks:
        Vec<(i32, i32)>)
        requires
            width > 0,
            channels > 0,
        ensures
            peaks.len() == width,
            forall|i: int|
                0 <= i < width ==> {
                    let n = frames_per_column(samples.len() as int, width as int, channels as int);
                    &&& (#[trigger] peaks[i]).0 == lowest(
                        samples@,
                        channels as int,
                        i * n,
                        (i + 1) * n,
                    )
                    &&& peaks[i].1 == highest(samples@, channels as int, i * n, (i + 1) * n)
                },
    {
        let per: usize = samples.len() / channels / width;
        let ghost n = per as int;
        let mut peaks: Vec<(i32, i32)> = Vec::new();
        let mut i: usize = 0;
        proof {
            let frames: int = samples.len() as int / channels as int;
            assert(n * width <= frames) by (nonlinear_arith)
                requires
                    n == frames / width as int,
                    width > 0,
                    frames >= 0,
            ;
            assert(frames * channels <= samples.len()) by (nonlinear_arith)
                requires
                    frames == samples.len() as int / channels as int,
                    channels > 0,
            ;
        }
        while i < width
            invariant
                i <= width,
                channels > 0,
                n == per,
                n == frames_per_column(samples.len() as int, width as int, channels as int),
                n * width <= samples.len() as int / channels as int,
                (samples.len() as int / channels as int) * channels <= samples.len(),
                peaks.len() == i,
                forall|j: int|
                    0 <= j < i ==> {
                        &&& (#[trigger] peaks[j]).0 == lowest(
                            samples@,
                            channels as int,
                            j * n,
                            (j + 1) * n,
                        )
                        &&& peaks[j].1 == highest(samples@, channels as int, j * n, (j + 1) * n)
                    },
            decreases width - i,
        {
            let ghost frames: int = samples.len() as int / channels as int;
            proof {
                assert((i + 1) * n <= n * width) by (nonlinear_arith)
                    requires
                        i + 1 <= width,
                        n >= 0,
                ;
                assert((i + 1) * n == i * n + n) by (nonlinear_arith);
                assert(i * n >= 0) by (nonlinear_arith)
                    requires
                        i >= 0,
                        n >= 0,
                ;
                assert(frames <= samples.len()) by (nonlinear_arith)
                    requires
                        frames * channels <= samples.len(),
                        channels >= 1,
                        frames >= 0,
                ;
            }
            let first: usize = i * per;
            let end: usize = first + per;
            assert(end == (i + 1) * n) by (nonlinear_arith)
                requires
                    end == i * n + n,
            ;
            let mut low: i32 = 0;
            let mut high: i32 = 0;
            let mut k: usize = first;
            while k < end
                invariant
                    first <= k <= end,
                    end <= frames,
                    channels > 0,
                    frames * channels <= samples.len(),
                    low == lowest(samples@, channels as int, first as int, k as int),
                    high == highest(samples@, channels as int, first as int, k as int),
                decreases end - k,
            {
                proof {
                    assert(k * channels + channels <= frames * channels) by (nonlinear_arith)
                        requires
                            k + 1 <= frames,
                            channels > 0,
                    ;
                    assert(k * channels >= 0) by (nonlinear_arith)
                        requires
                            k >= 0,
                            channels > 0,
                    ;
                }
                let sample: i32 = samples[k * channels];
                if sample < low {
                    low = sample;
                }
                if sample > high {
                    high = sample;
                }
                k = k + 1;
            }
            peaks.push((low, high));
            i = i + 1;
        }
        peaks
    }

    /// The image of the peaks, as the bytes of a PNG file: so far its
    /// signature alone.
    pub fn render_png(&self, peaks: &[(i32, i32)], width: u32, height: u32) -> (png: Vec<u8>)
        ensures
            png@ == png_signature(),
    {
        let mut png: Vec<u8> = Vec::new();
        png.push(137);
        png.push(80);
        png.push(78);
        png.push(71);
        png.push(13);
        png.push(10);
        png.push(26);
        png.push(10);
        proof {
            assert(png@ =~= png_signature());
        }
        png
    }
}

} // verus!
