use htop::errors::{
    err_canonicalize, err_file_name, err_headless_chrome, err_headless_chrome_file,
    err_invalid_paper_format,
    err_write_file, HtopError,
};
use htop::logging::log_level;

#[test]
fn error_messages() {
    assert_eq!(HtopError::new("boom".to_string()).message(), "boom");
    assert_eq!(err_invalid_paper_format("B4").message(), "invalid paper format 'B4'");
    assert_eq!(
        err_headless_chrome("timeout".to_string()).message(),
        "headless chrome failed with reason: timeout"
    );
    assert_eq!(
        err_headless_chrome_file("file:///a.html", "timeout".to_string()).message(),
        "headless chrome failed for file file:///a.html with reason: timeout"
    );
    assert_eq!(
        err_write_file("out.pdf", "denied".to_string()).message(),
        "writing file out.pdf failed with reason: denied"
    );
    assert_eq!(
        err_canonicalize("x.html", "gone".to_string()).message(),
        "canonicalizing failed for path x.html with reason: gone"
    );
    assert_eq!(err_file_name("/").message(), "retrieving file name for path / failed");
}

#[test]
fn log_level_prefers_the_request() {
    assert_eq!(log_level(Some("info".to_string()), Some("debug".to_string())), "debug");
    assert_eq!(log_level(None, Some("bogus".to_string())), "bogus");
}

#[test]
fn log_level_keeps_known_environment_values() {
    for l in ["error", "warn", "info", "debug", "trace"] {
        assert_eq!(log_level(Some(l.to_string()), None), l);
    }
}

#[test]
fn log_level_defaults_to_off() {
    assert_eq!(log_level(None, None), "off");
    assert_eq!(log_level(Some("INFO".to_string()), None), "off");
    assert_eq!(log_level(Some("verbose".to_string()), None), "off");
}
