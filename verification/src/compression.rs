//! The three compressors: gzip through `flate2`, brotli through `brotli`, and zstd
//! through `zstd`.

use vstd::prelude::*;

verus! {

/// Size of the buffer through which brotli reads its input.
pub const BROTLI_BUFFER_SIZE: usize = 4096;

/// Brotli's quality: the highest there is.
pub const BROTLI_QUALITY: u32 = 11;

/// Base-two logarithm of brotli's window size.
pub const BROTLI_WINDOW: u32 = 22;

/// The level that stands for zstd's own default.
pub const ZSTD_LEVEL: i32 = 0;

/// Which compressor to run.
#[derive(Clone, Copy, Debug, PartialEq, Eq, Structural)]
pub enum Compressor {
    /// Streaming and general-purpose: a checksummed gzip member at the default level.
    Gzip,
    /// High ratio, large window: brotli at `BROTLI_QUALITY` and `BROTLI_WINDOW`.
    Brotli,
    /// Balanced: zstd at its default level.
    Zstd,
}

impl Compressor {
    /// Every compressor, in the order in which a pass runs them.
    pub open spec fn variants() -> Seq<Compressor> {
        seq![Compressor::Gzip, Compressor::Brotli, Compressor::Zstd]
    }

    /// Lists every compressor, in the order in which a pass runs them.
    pub fn all() -> (list: Vec<Compressor>)
        ensures
            list@ == Self::variants(),
    {
        let list = vec![Compressor::Gzip, Compressor::Brotli, Compressor::Zstd];
        assert(list@ =~= Self::variants());
        list
    }

    /// The compressor's name in a measurement.
    pub open spec fn name_text(self) -> Seq<char> {
        match self {
            Compressor::Gzip => "gzip"@,
            Compressor::Brotli => "brotli"@,
            Compressor::Zstd => "zstd"@,
        }
    }

    /// Gives the compressor's name in a measurement.
    pub fn name(&self) -> (name: &'static str)
        ensures
            name@ == self.name_text(),
    {
        match self {
            Compressor::Gzip => "gzip",
            Compressor::Brotli => "brotli",
            Compressor::Zstd => "zstd",
        }
    }
}

/// A compressor that gave up on its input.
#[derive(Clone, Copy, Debug, PartialEq, Eq, Structural)]
pub struct CompressionError {
    pub compressor: Compressor,
}

/// The error type of `std::io`, which the three crates report failure with. The
/// library looks at no such value; it only tells failure from success.
#[verifier::external_type_specification]
#[verifier::external_body]
pub struct ExIoError(std::io::Error);

/// What `flate2` makes of `data`: the bytes of one gzip member written at
/// `flate2::Compression::default()`, or `None` where `flate2` reports an error.
pub uninterp spec fn gzip_stream(data: Seq<u8>) -> Option<Seq<u8>>;

/// What `brotli` makes of `data` when it reads it through a buffer of `buffer_size`
/// bytes at quality `quality` with a window of two to the `window` bytes: the bytes of
/// one brotli stream, or `None` where `brotli` reports an error.
pub uninterp spec fn brotli_stream(data: Seq<u8>, buffer_size: usize, quality: u32, window: u32)
    -> Option<Seq<u8>>;

/// What `zstd` makes of `data` at level `level`: the bytes of one zstd frame, or `None`
/// where `zstd` reports an error.
pub uninterp spec fn zstd_frame(data: Seq<u8>, level: i32) -> Option<Seq<u8>>;

/// Writes `data` through a `flate2::write::GzEncoder` over an empty `Vec`, made by
/// `GzEncoder::new` with `flate2::Compression::default()`, and finishes the member with
/// `GzEncoder::finish`.
///
/// Trusted: `flate2` writes a header that holds no time and no name of a system, so
/// what comes back depends on `data` alone; `gzip_stream` is the name of it.
#[verifier::external_body]
fn gzip_encode(data: &[u8]) -> (outcome: Result<Vec<u8>, std::io::Error>)
    ensures
        match outcome {
            Ok(stream) => gzip_stream(data@) == Some(stream@),
            Err(_) => gzip_stream(data@) is None,
        },
{
    let mut encoder = flate2::write::GzEncoder::new(Vec::new(), flate2::Compression::default());
    std::io::Write::write_all(&mut encoder, data)?;
    encoder.finish()
}

/// Reads `data` to its end through a `brotli::CompressorReader`, made by
/// `CompressorReader::new` with the three parameters as they are given.
///
/// Trusted: what comes back depends on `data` and the three parameters alone;
/// `brotli_stream` is the name of it. `brotli` brings quality and window into the range
/// it supports by itself. It allocates the buffer at once, which panics for a size above
/// `isize::MAX`; the precondition leaves that out.
#[verifier::external_body]
fn brotli_encode(data: &[u8], buffer_size: usize, quality: u32, window: u32) -> (outcome: Result<
    Vec<u8>,
    std::io::Error,
>)
    requires
        buffer_size <= isize::MAX,
    ensures
        match outcome {
            Ok(stream) => brotli_stream(data@, buffer_size, quality, window) == Some(stream@),
            Err(_) => brotli_stream(data@, buffer_size, quality, window) is None,
        },
{
    let mut stream = Vec::new();
    let mut reader = brotli::CompressorReader::new(data, buffer_size, quality, window);
    std::io::Read::read_to_end(&mut reader, &mut stream)?;
    Ok(stream)
}

/// Compresses `data` with `zstd::encode_all` at `level`.
///
/// Trusted: what comes back depends on `data` and `level` alone; `zstd_frame` is the
/// name of it.
#[verifier::external_body]
fn zstd_encode(data: &[u8], level: i32) -> (outcome: Result<Vec<u8>, std::io::Error>)
    ensures
        match outcome {
            Ok(frame) => zstd_frame(data@, level) == Some(frame@),
            Err(_) => zstd_frame(data@, level) is None,
        },
{
    zstd::encode_all(data, level)
}

/// What `compressor` makes of `data`, or `None` where it gives up. Nothing is made of
/// no input: the compressors are not run on it.
pub open spec fn compressed(compressor: Compressor, data: Seq<u8>) -> Option<Seq<u8>> {
    if data.len() == 0 {
        Some(Seq::empty())
    } else {
        match compressor {
            Compressor::Gzip => gzip_stream(data),
            Compressor::Brotli => brotli_stream(
                data,
                BROTLI_BUFFER_SIZE,
                BROTLI_QUALITY,
                BROTLI_WINDOW,
            ),
            Compressor::Zstd => zstd_frame(data, ZSTD_LEVEL),
        }
    }
}

/// Whether `result` is what `compress` returns for `compressor` and `data`.
pub open spec fn is_compress_result(
    compressor: Compressor,
    data: Seq<u8>,
    result: Result<Vec<u8>, CompressionError>,
) -> bool {
    match result {
        Ok(stream) => compressed(compressor, data) == Some(stream@),
        Err(error) => compressed(compressor, data) is None && error.compressor == compressor,
    }
}

/// Compresses `data` with `compressor`.
pub fn compress(compressor: Compressor, data: &[u8]) -> (result: Result<
    Vec<u8>,
    CompressionError,
>)
    ensures
        is_compress_result(compressor, data@, result),
        data@.len() == 0 ==> result is Ok && result->Ok_0@.len() == 0,
{
    if data.len() == 0 {
        let nothing: Vec<u8> = Vec::new();
        assert(nothing@ =~= Seq::<u8>::empty());
        return Ok(nothing);
    }
    let outcome = match compressor {
        Compressor::Gzip => gzip_encode(data),
        Compressor::Brotli => brotli_encode(
            data,
            BROTLI_BUFFER_SIZE,
            BROTLI_QUALITY,
            BROTLI_WINDOW,
        ),
        Compressor::Zstd => zstd_encode(data, ZSTD_LEVEL),
    };
    match outcome {
        Ok(stream) => Ok(stream),
        Err(_) => Err(CompressionError { compressor }),
    }
}

/// Compression can be repeated: two runs of one compressor on one input end alike, with
/// the same bytes or with the same error.
pub proof fn lemma_compress_repeatable(
    compressor: Compressor,
    data: Seq<u8>,
    first: Result<Vec<u8>, CompressionError>,
    second: Result<Vec<u8>, CompressionError>,
)
    requires
        is_compress_result(compressor, data, first),
        is_compress_result(compressor, data, second),
    ensures
        first is Ok <==> second is Ok,
        first is Ok ==> first->Ok_0@ == second->Ok_0@,
        first is Err ==> first->Err_0 == second->Err_0,
{
}

} // verus!
