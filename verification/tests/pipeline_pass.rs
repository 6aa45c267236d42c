use catalog_bench::compression::{compress, CompressionError, Compressor};
use catalog_bench::encoder::Encoder;
use catalog_bench::measurement::{compression_sample, encode_sample, Stage};
use catalog_bench::pipeline::{pipeline_report, run_pipeline, PipelineError};
use catalog_bench::product::{Binary64, Product, ProductDimensions, Timestamp};
use catalog_bench::random_products::{create_random_products, RealDraws, RECORD_COUNT};
use rand::Rng;
use std::time::Duration;

fn bits_of(value: f64) -> Binary64 {
    Binary64 { bits: value.to_bits() }
}

fn number(value: Binary64) -> f64 {
    f64::from_bits(value.bits)
}

fn catalog() -> Vec<Product> {
    let mut rng = rand::thread_rng();
    let mut reals = Vec::new();
    for _ in 0..RECORD_COUNT {
        reals.push(RealDraws {
            price: bits_of(rng.gen::<f64>()),
            weight: bits_of(rng.gen_range(1.0..10.0)),
            dimensions: ProductDimensions::new(
                bits_of(rng.gen_range(1.0..10.0)),
                bits_of(rng.gen_range(1.0..10.0)),
                bits_of(rng.gen_range(1.0..10.0)),
            ),
            rating: bits_of(rng.gen_range(1.0..5.0)),
        });
    }
    create_random_products(&reals).expect("no identifier repeats")
}

fn moment(at: Timestamp) -> String {
    chrono::DateTime::from_timestamp(at.seconds, at.nanoseconds).unwrap().to_rfc3339()
}

fn as_json(products: &[Product]) -> Vec<u8> {
    let mut rows = Vec::new();
    for product in products {
        let mut dimensions = serde_json::Map::new();
        dimensions.insert("length".into(), number(product.dimensions.length).into());
        dimensions.insert("width".into(), number(product.dimensions.width).into());
        dimensions.insert("height".into(), number(product.dimensions.height).into());
        let mut row = serde_json::Map::new();
        row.insert("id".into(), uuid::Uuid::from_u128(product.id).to_string().into());
        row.insert("name".into(), product.name.clone().into());
        row.insert("brand".into(), product.brand.clone().into());
        row.insert("sku".into(), product.sku.clone().into());
        row.insert("description".into(), product.description.clone().into());
        row.insert("price".into(), number(product.price).into());
        row.insert("weight".into(), number(product.weight).into());
        row.insert("dimensions".into(), dimensions.into());
        row.insert("rating".into(), number(product.rating).into());
        row.insert("stock_quantity".into(), product.stock_quantity.into());
        row.insert("category".into(), format!("{:?}", product.category).into());
        row.insert("created_at".into(), moment(product.created_at).into());
        row.insert("updated_at".into(), moment(product.updated_at).into());
        row.insert("currency".into(), format!("{:?}", product.currency).into());
        row.insert("manufacturer".into(), product.manufacturer.clone().into());
        rows.push(serde_json::Value::Object(row));
    }
    serde_json::to_vec(&rows).unwrap()
}

fn as_archive(products: &[Product]) -> Vec<u8> {
    let rows: Vec<_> = products
        .iter()
        .map(|product| {
            (
                (
                    product.id,
                    product.name.clone(),
                    product.brand.clone(),
                    product.sku.clone(),
                    product.description.clone(),
                ),
                (
                    number(product.price),
                    number(product.weight),
                    (
                        number(product.dimensions.length),
                        number(product.dimensions.width),
                        number(product.dimensions.height),
                    ),
                    number(product.rating),
                    product.stock_quantity,
                ),
                (
                    product.category as u8,
                    (product.created_at.seconds, product.created_at.nanoseconds),
                    (product.updated_at.seconds, product.updated_at.nanoseconds),
                    product.currency as u8,
                    product.manufacturer.clone(),
                ),
            )
        })
        .collect();
    rkyv::to_bytes::<_, 4096>(&rows).unwrap().to_vec()
}

#[test]
fn encoders_and_their_labels() {
    assert_eq!(Encoder::all(), vec![Encoder::Json, Encoder::Rkyv]);
    assert_eq!(Encoder::Json.name(), "JSON");
    assert_eq!(Encoder::Rkyv.name(), "rkyv");
    assert_eq!(Encoder::Json.content_type(), "application/json");
    assert_eq!(Encoder::Rkyv.content_type(), "application/octet-stream");
    assert_eq!(Encoder::Json.route(), "/json");
    assert_eq!(Encoder::Rkyv.route(), "/rkyv");
}

#[test]
fn a_path_selects_its_encoder() {
    assert_eq!(Encoder::from_route("/json"), Some(Encoder::Json));
    assert_eq!(Encoder::from_route("/rkyv"), Some(Encoder::Rkyv));
    for encoder in Encoder::all() {
        assert_eq!(Encoder::from_route(encoder.route()), Some(encoder));
    }
}

#[test]
fn other_paths_select_no_encoder() {
    for path in ["", "/", "json", "/JSON", "/json/", "/rkyv2", "/xml", " /json", "/rkyv "] {
        assert_eq!(Encoder::from_route(path), None, "{path:?}");
    }
}

#[test]
fn text_request_gives_json_and_four_samples() {
    let records = catalog();
    let encoded = as_json(&records);
    let report = run_pipeline(
        Encoder::Json,
        &records,
        Some(encoded.clone()),
        Duration::from_millis(3),
    )
    .unwrap();
    assert_eq!(report.content_type, "application/json");
    assert!(report.payload.len() > 0);
    assert_eq!(report.payload, encoded);
    assert_eq!(report.samples.len(), 4);
    let encodings =
        report.samples.iter().filter(|s| matches!(s.stage, Stage::Encode { .. })).count();
    let compressions =
        report.samples.iter().filter(|s| matches!(s.stage, Stage::Compress { .. })).count();
    assert_eq!(encodings, 1);
    assert_eq!(compressions, 3);
    assert_eq!(
        report.samples[0],
        encode_sample(Encoder::Json, 1000, encoded.len(), Duration::from_millis(3))
    );
    for (sample, compressor) in report.samples[1..].iter().zip(Compressor::all()) {
        assert_eq!(sample.stage, Stage::Compress { encoder: Encoder::Json, compressor });
        assert_eq!(sample.input_len, encoded.len());
        assert_eq!(sample.output_len, Some(compress(compressor, &encoded).unwrap().len()));
    }
}

#[test]
fn binary_request_gives_octets_shorter_than_the_text() {
    let records = catalog();
    let text = run_pipeline(
        Encoder::Json,
        &records,
        Some(as_json(&records)),
        Duration::from_millis(3),
    )
    .unwrap();
    let binary = run_pipeline(
        Encoder::Rkyv,
        &records,
        Some(as_archive(&records)),
        Duration::from_millis(1),
    )
    .unwrap();
    assert_eq!(binary.content_type, "application/octet-stream");
    assert!(binary.payload.len() > 0);
    assert!(binary.payload.len() < text.payload.len());
    assert_eq!(binary.samples.len(), 4);
    assert_eq!(binary.samples[0].stage, Stage::Encode { encoder: Encoder::Rkyv });
    assert_eq!(binary.samples[0].output_len, Some(binary.payload.len()));
}

#[test]
fn encoding_twice_gives_the_same_length() {
    let records = catalog();
    assert_eq!(as_json(&records).len(), as_json(&records).len());
    assert_eq!(as_archive(&records).len(), as_archive(&records).len());
    let first =
        run_pipeline(Encoder::Json, &records, Some(as_json(&records)), Duration::ZERO).unwrap();
    let second =
        run_pipeline(Encoder::Json, &records, Some(as_json(&records)), Duration::ZERO).unwrap();
    assert_eq!(first.payload, second.payload);
    for (a, b) in first.samples.iter().zip(&second.samples) {
        assert_eq!(a.stage, b.stage);
        assert_eq!(a.input_len, b.input_len);
        assert_eq!(a.output_len, b.output_len);
    }
}

#[test]
fn a_failed_compressor_costs_only_its_own_sample() {
    let payload = as_json(&catalog()[..10]);
    let elapsed = Duration::from_millis(2);
    let mut measured = Vec::new();
    for compressor in Compressor::all() {
        let outcome = if compressor == Compressor::Brotli {
            Err(CompressionError { compressor })
        } else {
            compress(compressor, &payload)
        };
        measured.push(compression_sample(
            Encoder::Json,
            compressor,
            payload.len(),
            &outcome,
            elapsed,
        ));
    }
    let encode = encode_sample(Encoder::Json, 10, payload.len(), elapsed);
    let report = pipeline_report(Encoder::Json, payload.clone(), encode, measured);
    assert_eq!(report.payload, payload);
    assert_eq!(report.content_type, "application/json");
    assert_eq!(report.samples.len(), 4);
    assert_eq!(report.samples[0], encode);
    let compressions = &report.samples[1..];
    assert_eq!(compressions.iter().filter(|s| s.output_len.is_some()).count(), 2);
    assert_eq!(compressions.iter().filter(|s| s.output_len.is_none()).count(), 1);
    assert_eq!(
        compressions[1].stage,
        Stage::Compress { encoder: Encoder::Json, compressor: Compressor::Brotli }
    );
    assert_eq!(compressions[1].output_len, None);
    assert_eq!(compressions[1].input_len, payload.len());
}

#[test]
fn a_report_keeps_the_samples_in_the_order_given() {
    let encode = encode_sample(Encoder::Rkyv, 2, 64, Duration::from_nanos(1));
    let gzip = compression_sample(
        Encoder::Rkyv,
        Compressor::Gzip,
        64,
        &Ok(vec![0; 40]),
        Duration::from_nanos(2),
    );
    let zstd = compression_sample(
        Encoder::Rkyv,
        Compressor::Zstd,
        64,
        &Ok(vec![0; 30]),
        Duration::from_nanos(3),
    );
    let report = pipeline_report(Encoder::Rkyv, vec![9; 64], encode, vec![zstd, gzip]);
    assert_eq!(report.samples, vec![encode, zstd, gzip]);
    assert_eq!(report.content_type, "application/octet-stream");
    assert_eq!(report.payload, vec![9; 64]);
    let bare = pipeline_report(Encoder::Json, Vec::new(), encode, Vec::new());
    assert_eq!(bare.samples, vec![encode]);
}

#[test]
fn an_empty_catalog_gives_no_bytes_at_any_stage() {
    let records: Vec<Product> = Vec::new();
    for encoder in Encoder::all() {
        for encoded in [None, Some(Vec::new()), Some(b"[]".to_vec())] {
            let report =
                run_pipeline(encoder, &records, encoded, Duration::from_micros(1)).unwrap();
            assert_eq!(report.payload, Vec::<u8>::new());
            assert_eq!(report.content_type, encoder.content_type());
            assert_eq!(report.samples.len(), 4);
            assert_eq!(report.samples[0], encode_sample(encoder, 0, 0, Duration::from_micros(1)));
            for (sample, compressor) in report.samples[1..].iter().zip(Compressor::all()) {
                assert_eq!(sample.stage, Stage::Compress { encoder, compressor });
                assert_eq!(sample.input_len, 0);
                assert_eq!(sample.output_len, Some(0));
            }
        }
    }
}

#[test]
fn a_failed_encoding_fails_the_pass() {
    let records = catalog();
    for encoder in Encoder::all() {
        let result = run_pipeline(encoder, &records, None, Duration::from_millis(1));
        assert_eq!(result.unwrap_err(), PipelineError::EncodingFailed { encoder });
    }
    let one = &records[..1].to_vec();
    assert_eq!(
        run_pipeline(Encoder::Json, one, None, Duration::ZERO).unwrap_err(),
        PipelineError::EncodingFailed { encoder: Encoder::Json }
    );
}

#[test]
fn an_encoder_that_gave_no_bytes_is_measured_as_it_is() {
    let records = catalog();
    let report =
        run_pipeline(Encoder::Rkyv, &records, Some(Vec::new()), Duration::from_millis(1)).unwrap();
    assert_eq!(report.payload, Vec::<u8>::new());
    assert_eq!(report.samples[0].input_len, 1000);
    assert_eq!(report.samples[0].output_len, Some(0));
    for sample in &report.samples[1..] {
        assert_eq!(sample.output_len, Some(0));
    }
}
