//! A micro-benchmark core: a synthetic product catalog, and the measurement of what it
//! costs to compress an encoding of it with gzip, brotli and zstd.

pub mod compression;
pub mod draw;
pub mod encoder;
pub mod measurement;
pub mod pipeline;
pub mod product;
pub mod random_products;
pub mod sku;
