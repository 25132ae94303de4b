use c2pa_preview::editor::{c2pa_report, report_format};

#[test]
fn report_without_raw_body_is_incorrect_call() {
    assert_eq!(
        c2pa_report(None),
        Err("Incorrect call to c2pa_report command".to_string())
    );
}

#[test]
fn report_of_unknown_type_has_no_mime() {
    assert_eq!(
        c2pa_report(Some(b"plain text, no signature".as_slice())),
        Err("Could not get MIME type for file".to_string())
    );
    assert_eq!(
        c2pa_report(Some(&[])),
        Err("Could not get MIME type for file".to_string())
    );
}

#[test]
fn report_of_jpeg_without_manifest_is_a_read_error() {
    let jpeg = [0xFFu8, 0xD8, 0xFF, 0xE0, 0x00, 0x10, b'J', b'F', b'I', b'F', 0x00, 0xFF, 0xD9];
    let r = c2pa_report(Some(&jpeg));
    assert!(r.is_err());
    assert_ne!(r, Err("Could not get MIME type for file".to_string()));
}

#[test]
fn report_format_follows_extension() {
    assert_eq!(report_format(Some("jpg".to_string())), Ok("jpg".to_string()));
    assert_eq!(
        report_format(None),
        Err("Could not get MIME type for file".to_string())
    );
}
