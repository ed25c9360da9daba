use ntr_tracker::decode::TextEncoding;
use ntr_tracker::error::TrackError;
use ntr_tracker::load::{
    check_target, greet, load_ntr_file, log_watch_event, open_ntr_file, read_ntr_file,
    OpenFileResponse,
};
use ntr_tracker::path::PathStyle;

#[test]
fn missing_path_is_not_found() {
    assert_eq!(check_target(false, false), Err(TrackError::NotFound));
    assert_eq!(check_target(false, true), Err(TrackError::NotFound));
}

#[test]
fn directory_is_not_a_file() {
    assert_eq!(check_target(true, false), Err(TrackError::NotAFile));
    assert_eq!(
        load_ntr_file("/tmp", true, false, Err(String::new()), PathStyle::Posix),
        Err(TrackError::NotAFile)
    );
}

#[test]
fn regular_file_passes_validation() {
    assert_eq!(check_target(true, true), Ok(()));
}

#[test]
fn load_on_missing_path_ignores_the_read() {
    assert_eq!(
        load_ntr_file("/nowhere", false, false, Ok(b"text".to_vec()), PathStyle::Posix),
        Err(TrackError::NotFound)
    );
}

#[test]
fn load_decodes_and_normalizes() {
    let got = load_ntr_file("C:\\Docs\\Song.NTR", true, true, Ok("héllo".as_bytes().to_vec()), PathStyle::Windows);
    assert_eq!(
        got,
        Ok(OpenFileResponse { path: "c:/docs/song.ntr".to_string(), contents: "héllo".to_string() })
    );
}

#[test]
fn load_of_empty_file_gives_empty_text() {
    let got = read_ntr_file("/d/empty.ntr", Ok(Vec::new()), PathStyle::Posix);
    assert_eq!(got, Ok(OpenFileResponse { path: "/d/empty.ntr".to_string(), contents: String::new() }));
}

#[test]
fn failed_read_is_an_io_error() {
    assert_eq!(
        read_ntr_file("/d/f", Err("permission denied".to_string()), PathStyle::Posix),
        Err(TrackError::IoError { reason: "permission denied".to_string() })
    );
    assert_eq!(
        load_ntr_file("/d/f", true, true, Err("device error".to_string()), PathStyle::Posix),
        Err(TrackError::IoError { reason: "device error".to_string() })
    );
}

#[test]
fn undecodable_file_is_unsupported_encoding() {
    assert_eq!(
        read_ntr_file("/d/f", Ok(vec![0xFF, 0xFE, 0x00]), PathStyle::Posix),
        Err(TrackError::UnsupportedEncoding { declared: Some(TextEncoding::Utf16Le) })
    );
}

#[test]
fn picker_answers() {
    assert_eq!(open_ntr_file(None), Ok(None));
    assert_eq!(open_ntr_file(Some(None)), Err(TrackError::PickerUnavailable));
    assert_eq!(open_ntr_file(Some(Some("/d/f.ntr".to_string()))), Ok(Some("/d/f.ntr".to_string())));
}

#[test]
fn log_line_is_prefixed() {
    assert_eq!(log_watch_event("Starting watch for /d/f"), "[watch] Starting watch for /d/f");
    assert_eq!(log_watch_event(""), "[watch] ");
}

#[test]
fn greeting() {
    assert_eq!(greet("Ada"), "Hello, Ada! You've been greeted from Rust!");
}

#[test]
fn failure_messages() {
    assert_eq!(TrackError::NotFound.message(), "File not found");
    assert_eq!(TrackError::NotAFile.message(), "Path does not point to a file");
    assert_eq!(
        TrackError::IoError { reason: "denied".to_string() }.message(),
        "Failed to read file bytes: denied"
    );
    assert_eq!(
        TrackError::UnsupportedEncoding { declared: Some(TextEncoding::Utf16Le) }.message(),
        "File encoding UTF-16LE contains invalid sequences"
    );
    assert_eq!(
        TrackError::UnsupportedEncoding { declared: None }.message(),
        "Unsupported file encoding; expected UTF-8 or Windows-1252"
    );
    assert_eq!(TrackError::WatchError { reason: "no watcher".to_string() }.message(), "no watcher");
    assert_eq!(
        TrackError::PickerUnavailable.message(),
        "Selected file is not accessible on this platform"
    );
}
