//! The measurement pipeline: one pass over a catalog gives the encoded payload, its
//! label, and a sample for the encoding and for each compressor.

use std::time::Duration;
use vstd::prelude::*;
use crate::compression::Compressor;
use crate::encoder::Encoder;
use crate::measurement::{
    compress_and_measure, encode_sample, is_compression_sample, MeasurementSample, Stage,
};
use crate::product::Product;

verus! {

/// Why a pass failed.
#[derive(Clone, Copy, Debug, PartialEq, Eq, Structural)]
pub enum PipelineError {
    /// The encoder gave no bytes for a catalog that has records.
    EncodingFailed { encoder: Encoder },
}

/// What a pass gives.
#[derive(Debug)]
pub struct PipelineReport {
    /// The encoded catalog, uncompressed.
    pub payload: Vec<u8>,
    /// The media type of the payload.
    pub content_type: &'static str,
    /// The sample of the encoding, then one sample for each compressor.
    pub samples: Vec<MeasurementSample>,
}

/// The payload of a pass over `record_count` records for which the encoder gave
/// `encoded`, or `None` where the pass fails. A catalog without records has the empty
/// payload, whatever the encoder gave; otherwise the payload is what the encoder gave,
/// and the pass fails where it gave nothing.
pub open spec fn pass_payload(record_count: nat, encoded: Option<Vec<u8>>) -> Option<Seq<u8>> {
    if record_count == 0 {
        Some(Seq::empty())
    } else {
        match encoded {
            Some(bytes) => Some(bytes@),
            None => None,
        }
    }
}

/// Whether `report` is what a pass gives that encoded `record_count` records with
/// `encoder` into `payload` in the time `encode_elapsed`: the payload and its label, the
/// sample of the encoding, and after it the samples of the compressors on the payload,
/// in the order of `Compressor::variants`.
pub open spec fn is_pass_report(
    report: PipelineReport,
    encoder: Encoder,
    payload: Seq<u8>,
    record_count: nat,
    encode_elapsed: Duration,
) -> bool {
    &&& report.payload@ == payload
    &&& report.content_type@ == encoder.content_type_text()
    &&& report.samples@.len() == 1 + Compressor::variants().len()
    &&& report.samples@[0] == (MeasurementSample {
        stage: Stage::Encode { encoder },
        elapsed: encode_elapsed,
        input_len: record_count as usize,
        output_len: Some(payload.len() as usize),
    })
    &&& forall|i: int|
        0 <= i < Compressor::variants().len() ==> is_compression_sample(
            #[trigger] report.samples@[1 + i],
            encoder,
            Compressor::variants()[i],
            payload,
        )
}

/// Puts a report together from the payload, the sample of the encoding and the samples
/// of the compressors.
pub fn pipeline_report(
    encoder: Encoder,
    payload: Vec<u8>,
    encode: MeasurementSample,
    compression: Vec<MeasurementSample>,
) -> (report: PipelineReport)
    ensures
        report.payload@ == payload@,
        report.content_type@ == encoder.content_type_text(),
        report.samples@ == seq![encode] + compression@,
{
    let ghost measured = compression@;
    let mut rest = compression;
    let mut samples: Vec<MeasurementSample> = Vec::new();
    samples.push(encode);
    samples.append(&mut rest);
    assert(samples@ =~= seq![encode] + measured);
    PipelineReport { payload, content_type: encoder.content_type(), samples }
}

/// Runs one pass. The caller has run `encoder` on `records` and hands over what it
/// gave, `None` where it failed, and the time it took.
///
/// The pass fails only where the encoder failed on a catalog that has records. A
/// compressor that gives up costs its own sample, marked unavailable, and nothing else.
/// For a catalog without records every stage reports an output of no bytes.
pub fn run_pipeline(
    encoder: Encoder,
    records: &Vec<Product>,
    encoded: Option<Vec<u8>>,
    encode_elapsed: Duration,
) -> (result: Result<PipelineReport, PipelineError>)
    ensures
        match pass_payload(records@.len(), encoded) {
            Some(payload) => result is Ok && is_pass_report(
                result->Ok_0,
                encoder,
                payload,
                records@.len(),
                encode_elapsed,
            ),
            None => result == Err::<PipelineReport, PipelineError>(
                PipelineError::EncodingFailed { encoder },
            ),
        },
        records@.len() == 0 ==> result is Ok && result->Ok_0.payload@.len() == 0 && forall|i: int|
            0 <= i < result->Ok_0.samples@.len() ==> (#[trigger] result->Ok_0.samples@[i]).output_len
                == Some(0usize),
{
    let payload = if records.len() == 0 {
        Vec::new()
    } else {
        match encoded {
            Some(bytes) => bytes,
            None => {
                return Err(PipelineError::EncodingFailed { encoder });
            },
        }
    };
    let encode = encode_sample(encoder, records.len(), payload.len(), encode_elapsed);
    let compression = compress_and_measure(payload.as_slice(), encoder);
    let report = pipeline_report(encoder, payload, encode, compression);
    proof {
        assert(pass_payload(records@.len(), encoded) == Some(report.payload@));
        assert forall|i: int| 0 <= i < Compressor::variants().len() implies is_compression_sample(
            #[trigger] report.samples@[1 + i],
            encoder,
            Compressor::variants()[i],
            report.payload@,
        ) by {
            assert(report.samples@[1 + i] == compression@[i]);
        }
        if records@.len() == 0 {
            assert forall|i: int| 0 <= i < report.samples@.len() implies (
            #[trigger] report.samples@[i]).output_len == Some(0usize) by {
                if i > 0 {
                    assert(is_compression_sample(
                        report.samples@[1 + (i - 1)],
                        encoder,
                        Compressor::variants()[i - 1],
                        report.payload@,
                    ));
                }
            }
        }
    }
    Ok(report)
}

} // verus!
