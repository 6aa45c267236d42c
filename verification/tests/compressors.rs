use catalog_bench::compression::{
    compress, CompressionError, Compressor, BROTLI_BUFFER_SIZE, BROTLI_QUALITY, BROTLI_WINDOW,
    ZSTD_LEVEL,
};
use catalog_bench::encoder::Encoder;
use catalog_bench::measurement::{
    compress_and_measure, compression_sample, encode_sample, measure_compression,
    MeasurementSample, Stage,
};
use std::io::{Read, Write};
use std::time::Duration;

fn sample_text() -> Vec<u8> {
    let mut data = Vec::new();
    for i in 0..400 {
        data.extend_from_slice(format!("{{\"name\":\"record {i}\",\"stock\":{}}},", i % 97).as_bytes());
    }
    data
}

fn gunzip(stream: &[u8]) -> Vec<u8> {
    let mut data = Vec::new();
    flate2::read::GzDecoder::new(stream).read_to_end(&mut data).unwrap();
    data
}

fn unbrotli(stream: &[u8]) -> Vec<u8> {
    let mut data = Vec::new();
    brotli::Decompressor::new(stream, 4096).read_to_end(&mut data).unwrap();
    data
}

fn unzstd(frame: &[u8]) -> Vec<u8> {
    zstd::decode_all(frame).unwrap()
}

#[test]
fn compressors_run_in_the_order_gzip_brotli_zstd() {
    assert_eq!(
        Compressor::all(),
        vec![Compressor::Gzip, Compressor::Brotli, Compressor::Zstd]
    );
    assert_eq!(Compressor::Gzip.name(), "gzip");
    assert_eq!(Compressor::Brotli.name(), "brotli");
    assert_eq!(Compressor::Zstd.name(), "zstd");
}

#[test]
fn compressor_parameters() {
    assert_eq!(BROTLI_BUFFER_SIZE, 4096);
    assert_eq!(BROTLI_QUALITY, 11);
    assert_eq!(BROTLI_WINDOW, 22);
    assert_eq!(ZSTD_LEVEL, 0);
}

#[test]
fn gzip_gives_a_gzip_member_of_the_input() {
    let data = sample_text();
    let stream = compress(Compressor::Gzip, &data).unwrap();
    assert_ne!(stream, data);
    assert!(stream.len() < data.len());
    assert_eq!(&stream[..4], &[0x1f, 0x8b, 8, 0]);
    assert_eq!(&stream[4..8], &[0, 0, 0, 0]);
    assert_eq!(stream[9], 255);
    assert_eq!(gunzip(&stream), data);
}

#[test]
fn gzip_is_written_at_the_default_level() {
    let data = sample_text();
    let mut encoder =
        flate2::write::GzEncoder::new(Vec::new(), flate2::Compression::new(6));
    encoder.write_all(&data).unwrap();
    assert_eq!(compress(Compressor::Gzip, &data).unwrap(), encoder.finish().unwrap());
}

#[test]
fn brotli_gives_a_brotli_stream_of_the_input() {
    let data = sample_text();
    let stream = compress(Compressor::Brotli, &data).unwrap();
    assert_ne!(stream, data);
    assert!(stream.len() < data.len());
    assert_eq!(unbrotli(&stream), data);
}

#[test]
fn brotli_runs_at_quality_eleven_with_a_window_of_two_to_the_twenty_second() {
    let data = sample_text();
    let mut expected = Vec::new();
    brotli::CompressorReader::new(&data[..], 4096, 11, 22).read_to_end(&mut expected).unwrap();
    assert_eq!(compress(Compressor::Brotli, &data).unwrap(), expected);
    let mut fast = Vec::new();
    brotli::CompressorReader::new(&data[..], 4096, 0, 22).read_to_end(&mut fast).unwrap();
    assert_ne!(compress(Compressor::Brotli, &data).unwrap(), fast);
}

#[test]
fn zstd_gives_a_zstd_frame_of_the_input() {
    let data = sample_text();
    let frame = compress(Compressor::Zstd, &data).unwrap();
    assert_ne!(frame, data);
    assert!(frame.len() < data.len());
    assert_eq!(&frame[..4], &[0x28, 0xb5, 0x2f, 0xfd]);
    assert_eq!(unzstd(&frame), data);
}

#[test]
fn zstd_runs_at_its_default_level() {
    let data = sample_text();
    assert_eq!(compress(Compressor::Zstd, &data).unwrap(), zstd::encode_all(&data[..], 3).unwrap());
}

#[test]
fn one_byte_is_compressed_like_any_input() {
    assert_eq!(gunzip(&compress(Compressor::Gzip, &[42]).unwrap()), vec![42]);
    assert_eq!(unbrotli(&compress(Compressor::Brotli, &[42]).unwrap()), vec![42]);
    assert_eq!(unzstd(&compress(Compressor::Zstd, &[42]).unwrap()), vec![42]);
}

#[test]
fn no_input_gives_no_output() {
    for compressor in Compressor::all() {
        assert_eq!(compress(compressor, &[]), Ok(Vec::new()));
    }
}

#[test]
fn compressing_twice_gives_the_same_bytes() {
    let data = sample_text();
    for compressor in Compressor::all() {
        let first = compress(compressor, &data);
        let second = compress(compressor, &data);
        assert!(first.is_ok());
        assert_eq!(first, second);
    }
}

#[test]
fn sample_of_an_encoding() {
    let sample = encode_sample(Encoder::Rkyv, 1000, 123_456, Duration::from_micros(250));
    assert_eq!(
        sample,
        MeasurementSample {
            stage: Stage::Encode { encoder: Encoder::Rkyv },
            elapsed: Duration::from_micros(250),
            input_len: 1000,
            output_len: Some(123_456),
        }
    );
}

#[test]
fn sample_of_a_compression_that_succeeded() {
    let sample = compression_sample(
        Encoder::Json,
        Compressor::Brotli,
        5000,
        &Ok(vec![7; 321]),
        Duration::from_millis(12),
    );
    assert_eq!(
        sample,
        MeasurementSample {
            stage: Stage::Compress { encoder: Encoder::Json, compressor: Compressor::Brotli },
            elapsed: Duration::from_millis(12),
            input_len: 5000,
            output_len: Some(321),
        }
    );
}

#[test]
fn sample_of_a_compression_that_failed_is_unavailable() {
    let sample = compression_sample(
        Encoder::Rkyv,
        Compressor::Zstd,
        77,
        &Err(CompressionError { compressor: Compressor::Zstd }),
        Duration::from_nanos(9),
    );
    assert_eq!(
        sample,
        MeasurementSample {
            stage: Stage::Compress { encoder: Encoder::Rkyv, compressor: Compressor::Zstd },
            elapsed: Duration::from_nanos(9),
            input_len: 77,
            output_len: None,
        }
    );
}

#[test]
fn measuring_one_compressor() {
    let data = sample_text();
    for compressor in Compressor::all() {
        let sample = measure_compression(Encoder::Json, compressor, &data);
        assert_eq!(sample.stage, Stage::Compress { encoder: Encoder::Json, compressor });
        assert_eq!(sample.input_len, data.len());
        assert_eq!(sample.output_len, Some(compress(compressor, &data).unwrap().len()));
        assert!(sample.elapsed < Duration::from_secs(20));
    }
}

#[test]
fn measuring_all_three_compressors() {
    let data = sample_text();
    let samples = compress_and_measure(&data, Encoder::Rkyv);
    assert_eq!(samples.len(), 3);
    for (sample, compressor) in samples.iter().zip(Compressor::all()) {
        assert_eq!(sample.stage, Stage::Compress { encoder: Encoder::Rkyv, compressor });
        assert_eq!(sample.input_len, data.len());
        assert_eq!(sample.output_len, Some(compress(compressor, &data).unwrap().len()));
    }
    let sizes: Vec<usize> = samples.iter().map(|s| s.output_len.unwrap()).collect();
    assert!(sizes.iter().all(|&size| 0 < size && size < data.len()));
}

#[test]
fn measuring_no_input() {
    let samples = compress_and_measure(&[], Encoder::Json);
    assert_eq!(samples.len(), 3);
    for sample in samples {
        assert_eq!(sample.input_len, 0);
        assert_eq!(sample.output_len, Some(0));
    }
}
