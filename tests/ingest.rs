use mlop_ingest::data::DataInput;
use mlop_ingest::enrichment::{DataEnrichment, FilesEnrichment, LogEnrichment, MetricEnrichment};
use mlop_ingest::error::ErrorCode;
use mlop_ingest::files::{FileInput, FilesRow};
use mlop_ingest::log::{LogInput, LogRow};
use mlop_ingest::metrics::{MetricInput, MetricRow, MetricValue};
use mlop_ingest::stream::{decode_error, read_error, send_error, IngestStream, LineDecoder};

fn metric(name: &str, value: f64) -> MetricValue {
    MetricValue { name: name.to_string(), bits: value.to_bits() }
}

fn metric_context() -> MetricEnrichment {
    MetricEnrichment::from_headers("t".to_string(), Some("42"), Some("p")).unwrap()
}

#[test]
fn happy_path_metrics() {
    let mut stream = IngestStream::new();
    let body = b"{\"time\":1,\"step\":0,\"data\":{\"a/loss\":0.5,\"a/acc\":0.9}}\n";
    let lines = stream.on_chunk(body);
    assert_eq!(lines.len(), 1);
    assert_eq!(lines[0], body[..body.len() - 1].to_vec());
    let input = MetricInput { time: 1, step: 0, data: vec![metric("a/loss", 0.5), metric("a/acc", 0.9)] };
    let rows = input.into_rows(metric_context()).unwrap();
    assert_eq!(rows.len(), 2);
    for row in &rows {
        assert_eq!(row.log_group, "a");
        assert_eq!(row.tenant_id, "t");
        assert_eq!(row.run_id, 42);
        assert_eq!(row.project_name, "p");
        assert_eq!(row.time, 1);
        assert_eq!(row.step, 0);
    }
    assert_eq!(rows[0].log_name, "a/loss");
    assert_eq!(f64::from_bits(rows[0].value_bits), 0.5);
    assert_eq!(rows[1].log_name, "a/acc");
    assert_eq!(f64::from_bits(rows[1].value_bits), 0.9);
    stream.on_rows_sent(rows.len() as u64);
    assert!(stream.on_end().is_none());
    assert_eq!(stream.summary(), "Stream processed successfully: 2 records");
}

#[test]
fn invalid_metric_value() {
    let input = MetricInput { time: 1, step: 0, data: vec![metric("loss", f64::NAN)] };
    let err = input.validate().unwrap_err();
    assert_eq!(err.code, ErrorCode::InvalidMetricFormat);
    assert_eq!(err.code.status_code(), 400);
    assert_eq!(err.code.wire_name(), "INVALID_METRIC_FORMAT");
    assert_eq!(err.message, "metric 'loss' has invalid value: NaN");
    let input = MetricInput { time: 1, step: 0, data: vec![metric("loss", f64::NAN)] };
    assert!(input.into_rows(metric_context()).is_err());
}

#[test]
fn infinite_metric_values_are_rejected() {
    let input = MetricInput { time: 1, step: 0, data: vec![metric("ok", 1.0), metric("up", f64::INFINITY)] };
    assert_eq!(input.validate().unwrap_err().message, "metric 'up' has invalid value: inf");
    let input = MetricInput { time: 1, step: 0, data: vec![metric("down", f64::NEG_INFINITY)] };
    assert_eq!(input.validate().unwrap_err().message, "metric 'down' has invalid value: -inf");
    let input = MetricInput { time: 1, step: 0, data: vec![metric("big", f64::MAX), metric("tiny", -0.0)] };
    assert!(input.validate().is_ok());
}

#[test]
fn empty_metric_data_and_blank_names_are_rejected() {
    let input = MetricInput { time: 1, step: 0, data: vec![] };
    let err = input.validate().unwrap_err();
    assert_eq!(err.code, ErrorCode::InvalidMetricFormat);
    assert_eq!(err.message, "'data' field cannot be empty");
    let input = MetricInput { time: 1, step: 0, data: vec![metric(" \t\u{3000}", 1.0)] };
    assert_eq!(input.validate().unwrap_err().message, "metric name cannot be empty");
}

#[test]
fn bad_json_mid_stream() {
    let mut stream = IngestStream::new();
    let lines = stream.on_chunk(b"{\"a\":1}\n{\"b\":2}\n{not json");
    assert_eq!(lines, vec![b"{\"a\":1}".to_vec(), b"{\"b\":2}".to_vec()]);
    stream.on_rows_sent(2);
    assert_eq!(stream.on_end(), Some(b"{not json".to_vec()));
    let err = decode_error("{not json", "syntax error");
    assert_eq!(err.code, ErrorCode::StreamDecodingError);
    assert_eq!(err.code.status_code(), 422);
    assert_eq!(err.code.wire_name(), "STREAM_DECODING_ERROR");
    assert_eq!(err.message, "Failed to parse JSON line (bytes): '{not json': syntax error");
    assert_eq!(stream.records(), 2);
}

#[test]
fn read_and_send_errors() {
    let err = read_error("reset");
    assert_eq!(err.code, ErrorCode::StreamProcessingError);
    assert_eq!(err.message, "Failed to read stream chunk: reset");
    let err = send_error("closed");
    assert_eq!(err.code, ErrorCode::StreamProcessingError);
    assert_eq!(err.message, "Failed to send record to processor: closed");
}

#[test]
fn lines_split_across_chunks_are_joined() {
    let mut decoder = LineDecoder::new();
    assert!(decoder.push_chunk(b"  {\"x\"").is_empty());
    assert_eq!(decoder.push_chunk(b":1}\r\n\n \t\n{\"y\":2"), vec![b"{\"x\":1}".to_vec()]);
    assert_eq!(decoder.push_chunk(b"}\n"), vec![b"{\"y\":2}".to_vec()]);
    assert_eq!(decoder.finish(), None);
}

#[test]
fn trailing_line_without_newline_is_emitted() {
    let mut decoder = LineDecoder::new();
    assert!(decoder.push_chunk(b"\r{\"z\":3} \t").is_empty());
    assert_eq!(decoder.finish(), Some(b"{\"z\":3}".to_vec()));
    assert_eq!(decoder.finish(), None);
}

#[test]
fn summary_counts_rows() {
    let mut stream = IngestStream::new();
    assert_eq!(stream.summary(), "Stream processed successfully: 0 records");
    stream.on_rows_sent(1234567);
    assert_eq!(stream.summary(), "Stream processed successfully: 1234567 records");
}

#[test]
fn metric_fan_out_is_one_row_per_value() {
    let data: Vec<MetricValue> = (0..5).map(|i| metric(&format!("g/m{}", i), i as f64)).collect();
    let input = MetricInput { time: 7, step: 3, data };
    let rows = input.into_rows(metric_context()).unwrap();
    assert_eq!(rows.len(), 5);
    for (i, row) in rows.iter().enumerate() {
        assert_eq!(row.log_name, format!("g/m{}", i));
        assert_eq!(row.log_group, "g");
    }
}

#[test]
fn other_inputs_fan_out_to_one_row() {
    let log = LogInput { time: 1, message: "hello".to_string(), line_number: 4, log_type: "INFO".to_string() };
    let context = LogEnrichment::from_headers("t".to_string(), Some("5"), Some("p")).unwrap();
    let rows = log.into_rows(context).unwrap();
    assert_eq!(rows.len(), 1);
    assert_eq!(rows[0].message, "hello");
    assert_eq!(rows[0].line_number, 4);
    assert_eq!(rows[0].run_id, 5);

    let data = DataInput {
        time: 1,
        data: "{}".to_string(),
        step: 2,
        data_type: "DATA".to_string(),
        log_name: "train/hist".to_string(),
    };
    let context = DataEnrichment::from_headers("t".to_string(), Some("6"), Some("p")).unwrap();
    let rows = data.into_rows(context).unwrap();
    assert_eq!(rows.len(), 1);
    assert_eq!(rows[0].log_group, "train");
    assert_eq!(rows[0].data_type, "DATA");

    let file = FileInput {
        log_name: "img/a".to_string(),
        file_name: "a.png".to_string(),
        file_type: "png".to_string(),
        time: 1,
        step: 2,
        file_size: 10,
    };
    let context = FilesEnrichment::from_headers("t".to_string(), Some("7"), Some("p")).unwrap();
    let rows = file.into_rows(context).unwrap();
    assert_eq!(rows.len(), 1);
    assert_eq!(rows[0].log_group, "img");
    assert_eq!(rows[0].run_id, 7);
}

#[test]
fn log_and_data_validation_errors() {
    let log = LogInput { time: 1, message: String::new(), line_number: 0, log_type: "  ".to_string() };
    let err = log.validate().unwrap_err();
    assert_eq!(err.code, ErrorCode::InvalidLogFormat);
    assert_eq!(err.message, "'logType' field cannot be empty");
    let context = LogEnrichment::from_headers("t".to_string(), Some("1"), Some("p")).unwrap();
    assert!(LogRow::from(log, context).is_err());

    let data = DataInput {
        time: 1,
        data: String::new(),
        step: 0,
        data_type: "\t".to_string(),
        log_name: String::new(),
    };
    assert_eq!(data.validate().unwrap_err().message, "'dataType' field cannot be empty");
    let data = DataInput {
        time: 1,
        data: String::new(),
        step: 0,
        data_type: "x".to_string(),
        log_name: "\n".to_string(),
    };
    assert_eq!(data.validate().unwrap_err().message, "'logName' field cannot be empty");
}

#[test]
fn enrichment_reaches_every_row() {
    let context = MetricEnrichment::from_headers("tenant".to_string(), Some("+9"), Some("proj")).unwrap();
    assert_eq!(context.run_id, 9);
    let input = MetricInput { time: 1, step: 1, data: vec![metric("a", 1.0)] };
    let row = MetricRow::from(input, context).unwrap();
    assert_eq!(row.tenant_id, "tenant");
    assert_eq!(row.run_id, 9);
    assert_eq!(row.project_name, "proj");
}

#[test]
fn run_id_that_is_not_a_number_reads_as_zero() {
    let context = DataEnrichment::from_headers("t".to_string(), Some("abc"), Some("p")).unwrap();
    assert_eq!(context.run_id, 0);
    let context = DataEnrichment::from_headers("t".to_string(), Some("18446744073709551616"), Some("p")).unwrap();
    assert_eq!(context.run_id, 0);
    let context = DataEnrichment::from_headers("t".to_string(), Some("18446744073709551615"), Some("p")).unwrap();
    assert_eq!(context.run_id, u64::MAX);
    let context = DataEnrichment::from_headers("t".to_string(), Some(""), Some("p")).unwrap();
    assert_eq!(context.run_id, 0);
    let context = DataEnrichment::from_headers("t".to_string(), Some("-1"), Some("p")).unwrap();
    assert_eq!(context.run_id, 0);
}

#[test]
fn missing_headers_are_rejected() {
    let err = LogEnrichment::from_headers("t".to_string(), None, Some("p")).unwrap_err();
    assert_eq!(err.code, ErrorCode::InvalidHeaderFormat);
    assert_eq!(err.message, "Missing required header: X-Run-Id");
    let err = LogEnrichment::from_headers("t".to_string(), Some("1"), None).unwrap_err();
    assert_eq!(err.code.status_code(), 400);
    assert_eq!(err.message, "Missing required header: X-Project-Name");
}

#[test]
fn table_names() {
    assert_eq!(MetricRow::table_name(), "mlop_metrics");
    assert_eq!(LogRow::table_name(), "mlop_logs");
    assert_eq!(mlop_ingest::data::DataRow::table_name(), "mlop_data");
    assert_eq!(FilesRow::table_name(), "mlop_files");
}

#[test]
fn chunk_boundaries_do_not_change_lines() {
    let body: &[u8] = b" {\"a\":1}\r\n\n{\"b\":2}\n  {\"c\":3}  ";
    let mut whole = LineDecoder::new();
    let mut expected = whole.push_chunk(body);
    expected.extend(whole.finish());
    for cut in 0..=body.len() {
        let mut decoder = LineDecoder::new();
        let mut lines = decoder.push_chunk(&body[..cut]);
        lines.extend(decoder.push_chunk(&body[cut..]));
        lines.extend(decoder.finish());
        assert_eq!(lines, expected, "cut at {}", cut);
    }
    assert_eq!(expected.len(), 3);
}
