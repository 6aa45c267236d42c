//! Measurement samples: what one stage of a pass took and gave.

use std::time::Duration;
use vstd::prelude::*;
use crate::compression::{compress, compressed, CompressionError, Compressor};
use crate::encoder::Encoder;

verus! {

/// A stage of a pass.
#[derive(Clone, Copy, Debug, PartialEq, Eq, Structural)]
pub enum Stage {
    /// Encoding the catalog.
    Encode { encoder: Encoder },
    /// Compressing what `encoder` gave with `compressor`.
    Compress { encoder: Encoder, compressor: Compressor },
}

/// One observation of one stage.
#[derive(Clone, Copy, Debug, PartialEq, Eq)]
pub struct MeasurementSample {
    pub stage: Stage,
    /// The time the stage took, by a monotonic clock.
    pub elapsed: Duration,
    /// The size of what went in: records for encoding, bytes for compression.
    pub input_len: usize,
    /// The number of bytes that came out, or `None` where the stage failed and its
    /// measurement is unavailable.
    pub output_len: Option<usize>,
}

/// A moment on the monotonic clock of `std::time`. The library hands such moments back
/// to the clock and reads nothing from them.
#[verifier::external_type_specification]
#[verifier::external_body]
pub struct ExInstant(std::time::Instant);

/// Reads the monotonic clock with `std::time::Instant::now`.
///
/// Trusted, with nothing claimed of the moment.
#[verifier::external_body]
fn clock_now() -> std::time::Instant {
    std::time::Instant::now()
}

/// Measures the time since `start` with `std::time::Instant::elapsed`.
///
/// Trusted, with nothing claimed of the time.
#[verifier::external_body]
fn clock_elapsed(start: &std::time::Instant) -> Duration {
    start.elapsed()
}

/// The number of bytes in what a compressor returned, or `None` where it gave up.
pub open spec fn output_len_of(outcome: Result<Vec<u8>, CompressionError>) -> Option<usize> {
    match outcome {
        Ok(stream) => Some(stream@.len() as usize),
        Err(_) => None,
    }
}

/// Whether `sample` is a measurement of `compressor` on `data`, the output of
/// `encoder`: it names that stage, counts the bytes of `data` as its input, and counts
/// the bytes that the compressor makes of `data`, or is unavailable where the compressor
/// gives up. The time is whatever the clock said.
pub open spec fn is_compression_sample(
    sample: MeasurementSample,
    encoder: Encoder,
    compressor: Compressor,
    data: Seq<u8>,
) -> bool {
    &&& sample.stage == Stage::Compress { encoder, compressor }
    &&& sample.input_len == data.len()
    &&& match compressed(compressor, data) {
        Some(stream) => sample.output_len == Some(stream.len() as usize),
        None => sample.output_len is None,
    }
}

/// Makes the sample of an encoding that took `elapsed` and turned `record_count`
/// records into `output_len` bytes.
pub fn encode_sample(encoder: Encoder, record_count: usize, output_len: usize, elapsed: Duration)
    -> (sample: MeasurementSample)
    ensures
        sample == (MeasurementSample {
            stage: Stage::Encode { encoder },
            elapsed,
            input_len: record_count,
            output_len: Some(output_len),
        }),
{
    MeasurementSample {
        stage: Stage::Encode { encoder },
        elapsed,
        input_len: record_count,
        output_len: Some(output_len),
    }
}

/// Makes the sample of a compression that took `elapsed` and ended in `outcome` on
/// `input_len` bytes. A failed compression gives a sample too, marked unavailable.
pub fn compression_sample(
    encoder: Encoder,
    compressor: Compressor,
    input_len: usize,
    outcome: &Result<Vec<u8>, CompressionError>,
    elapsed: Duration,
) -> (sample: MeasurementSample)
    ensures
        sample == (MeasurementSample {
            stage: Stage::Compress { encoder, compressor },
            elapsed,
            input_len,
            output_len: output_len_of(*outcome),
        }),
{
    let output_len = match outcome {
        Ok(stream) => Some(stream.len()),
        Err(_) => None,
    };
    MeasurementSample {
        stage: Stage::Compress { encoder, compressor },
        elapsed,
        input_len,
        output_len,
    }
}

/// Runs `compressor` on `data`, the output of `encoder`, and measures it.
pub fn measure_compression(encoder: Encoder, compressor: Compressor, data: &[u8]) -> (sample:
    MeasurementSample)
    ensures
        is_compression_sample(sample, encoder, compressor, data@),
{
    let start = clock_now();
    let outcome = compress(compressor, data);
    let elapsed = clock_elapsed(&start);
    compression_sample(encoder, compressor, data.len(), &outcome, elapsed)
}

/// Runs each of the three compressors on `data`, the output of `encoder`, and measures
/// it. The samples come in the order of `Compressor::variants`; a compressor that gives
/// up leaves its sample in place, marked unavailable, and the others still run.
pub fn compress_and_measure(data: &[u8], encoder: Encoder) -> (samples: Vec<MeasurementSample>)
    ensures
        samples@.len() == Compressor::variants().len(),
        forall|i: int|
            0 <= i < samples@.len() ==> is_compression_sample(
                #[trigger] samples@[i],
                encoder,
                Compressor::variants()[i],
                data@,
            ),
{
    let compressors = Compressor::all();
    let mut samples: Vec<MeasurementSample> = Vec::with_capacity(compressors.len());
    let mut index: usize = 0;
    while index < compressors.len()
        invariant
            index <= compressors@.len(),
            compressors@ == Compressor::variants(),
            samples@.len() == index,
            forall|i: int|
                0 <= i < index ==> is_compression_sample(
                    #[trigger] samples@[i],
                    encoder,
                    compressors@[i],
                    data@,
                ),
        decreases compressors@.len() - index,
    {
        let sample = measure_compression(encoder, compressors[index], data);
        samples.push(sample);
        index += 1;
    }
    samples
}

} // verus!
