use unbroken_qa_capture::annotation::{
    annotated_save_path, annotation_url, annotation_window_label, decode_data_url,
};

#[test]
fn window_labels() {
    assert_eq!(annotation_window_label("/tmp/s/capture-001.png"), "annotation-capture-001-png");
    assert_eq!(annotation_window_label("/"), "annotation-window");
}

#[test]
fn editor_addresses_are_url_encoded() {
    assert_eq!(annotation_url("/tmp/a b.png", None), "/annotate?image=%2Ftmp%2Fa%20b.png");
    assert_eq!(
        annotation_url("C:\\x~y_z.png", Some("id-1")),
        "/annotate?image=C%3A%5Cx~y_z.png&captureId=id-1"
    );
    assert_eq!(annotation_url("é", None), "/annotate?image=%C3%A9");
}

#[test]
fn data_urls_decode_after_first_comma() {
    assert_eq!(decode_data_url("data:image/png;base64,aGk=").unwrap(), b"hi".to_vec());
    assert_eq!(decode_data_url("no comma").unwrap_err(), "Invalid data URL: missing comma separator");
    assert!(decode_data_url("data:,@@@")
        .unwrap_err()
        .starts_with("Failed to decode base64 image data: "));
}

#[test]
fn annotated_paths() {
    assert_eq!(annotated_save_path("/tmp/shot.png", "overwrite"), "/tmp/shot.png");
    assert_eq!(annotated_save_path("/tmp/shot.png", "alongside"), "/tmp/shot_annotated.png");
    assert_eq!(annotated_save_path("/tmp/shot", "alongside"), "/tmp/shot_annotated.png");
}
