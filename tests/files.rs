use mlop_ingest::enrichment::FilesEnrichment;
use mlop_ingest::file_type::{FileType, FileTypeJson};
use mlop_ingest::presign::{group_by_log_name, object_key, upload_rows, FileUploadInfo, FileUploadRequest};

fn info(log_name: &str, file_name: &str, file_type: FileType) -> FileUploadInfo {
    FileUploadInfo {
        file_name: file_name.to_string(),
        log_name: log_name.to_string(),
        file_size: 100,
        file_type,
        step: 3,
        time: 4,
    }
}

#[test]
fn presign_grouping() {
    let request = FileUploadRequest {
        files: vec![
            info("img", "a.png", FileType::Png),
            info("txt", "b.txt", FileType::Txt),
            info("img", "c.png", FileType::Png),
        ],
    };
    let context = FilesEnrichment::from_headers("t".to_string(), Some("42"), Some("p")).unwrap();
    let rows = upload_rows(&request.files, &context);
    assert_eq!(rows.len(), 3);
    assert_eq!(rows[0].file_type, "png");
    assert_eq!(rows[1].file_type, "txt");
    assert_eq!(rows[2].file_name, "c.png");
    assert_eq!(rows[2].tenant_id, "t");
    assert_eq!(rows[2].run_id, 42);
    let results: Vec<(String, String, String)> = request
        .files
        .iter()
        .map(|f| (f.log_name.clone(), f.file_name.clone(), format!("https://u/{}", f.file_name)))
        .collect();
    let response = group_by_log_name(results);
    assert_eq!(response.log_files.len(), 2);
    assert_eq!(response.log_files[0].0, "img");
    assert_eq!(response.log_files[0].1.len(), 2);
    assert_eq!(response.log_files[0].1[0], ("a.png".to_string(), "https://u/a.png".to_string()));
    assert_eq!(response.log_files[0].1[1], ("c.png".to_string(), "https://u/c.png".to_string()));
    assert_eq!(response.log_files[1].0, "txt");
    assert_eq!(response.log_files[1].1.len(), 1);
}

#[test]
fn object_key_layout() {
    assert_eq!(object_key("t", "p", 42, "img/x", "a.png"), "t/p/42/img/x/a.png");
    assert_eq!(object_key("t", "p", 0, "l", "f"), "t/p/0/l/f");
    assert_eq!(object_key("t", "p", u64::MAX, "l", "f"), "t/p/18446744073709551615/l/f");
}

#[test]
fn custom_file_type_keeps_its_mime() {
    let rows = upload_rows(
        &vec![info("m", "w.bin", FileType::Custom("application/x-weights".to_string()))],
        &FilesEnrichment { tenant_id: "t".to_string(), run_id: 1, project_name: "p".to_string() },
    );
    assert_eq!(rows[0].file_type, "");
    assert_eq!(FileType::Custom("application/x-weights".to_string()).mime_type(), "application/x-weights");
}

#[test]
fn file_type_parsing_ignores_case() {
    assert!(matches!(FileType::from_str("PNG"), Some(FileType::Png)));
    assert!(matches!(FileType::from_str("Yml"), Some(FileType::Yaml)));
    assert!(matches!(FileType::from_str("yaml"), Some(FileType::Yaml)));
    assert!(matches!(FileType::from_str("TfLite"), Some(FileType::TfLite)));
    match FileType::from_str("Image/Webp-X") {
        Some(FileType::Custom(m)) => assert_eq!(m, "Image/Webp-X"),
        other => panic!("unexpected {:?}", other),
    }
}

#[test]
fn mime_types_and_extensions() {
    assert_eq!(FileType::Jpg.mime_type(), "image/jpeg");
    assert_eq!(FileType::Svg.mime_type(), "image/svg+xml");
    assert_eq!(FileType::Avi.mime_type(), "video/x-msvideo");
    assert_eq!(FileType::Docx.mime_type(), "application/vnd.openxmlformats-officedocument.wordprocessingml.document");
    assert_eq!(FileType::H5.mime_type(), "application/x-hdf5");
    assert_eq!(FileType::Ckpt.mime_type(), "application/octet-stream");
    assert_eq!(FileType::SavedModel.extension(), "savedmodel");
    assert_eq!(FileType::Yaml.extension(), "yaml");
    assert_eq!(FileType::Custom("a/b".to_string()).extension(), "");
}

fn round_trip(v: FileTypeJson) -> FileTypeJson {
    FileType::from_json(v).to_json()
}

#[test]
fn file_type_json_round_trip() {
    for ext in [
        "jpeg", "jpg", "png", "gif", "svg", "webp", "mp4", "webm", "avi", "mov", "mp3", "wav", "ogg", "pdf", "doc",
        "docx", "xls", "xlsx", "txt", "json", "csv", "xml", "yaml", "onnx", "pkl", "h5", "tflite", "savedmodel",
        "pt", "ckpt",
    ] {
        match round_trip(FileTypeJson::Text(ext.to_string())) {
            FileTypeJson::Text(s) => assert_eq!(s, ext),
            other => panic!("unexpected {:?}", other),
        }
    }
    match round_trip(FileTypeJson::Custom("text/x-log".to_string())) {
        FileTypeJson::Custom(m) => assert_eq!(m, "text/x-log"),
        other => panic!("unexpected {:?}", other),
    }
}
