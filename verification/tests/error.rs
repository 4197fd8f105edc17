use leveldb_py::error::BindingError;
use leveldb_py::VERSION;

#[test]
fn an_open_error_shows_the_diagnostic_after_its_prefix() {
    let e = BindingError::Open("LevelDB error: IO error: /no/such/dir/LOCK: No such file or directory".to_string());
    assert_eq!(
        e.message(),
        "Unable to open database: LevelDB error: IO error: /no/such/dir/LOCK: No such file or directory"
    );
}

#[test]
fn an_open_error_keeps_the_diagnostic_as_it_is() {
    let diagnostic = "  Corruption:\tbad block \u{00e9}\n";
    let e = BindingError::Open(diagnostic.to_string());
    assert_eq!(e, BindingError::Open("  Corruption:\tbad block \u{00e9}\n".to_string()));
    assert_eq!(e.message(), format!("Unable to open database: {}", diagnostic));
    assert_eq!(BindingError::Open(String::new()).message(), "Unable to open database: ");
}

#[test]
fn the_unsupported_shape_has_its_own_message() {
    assert_eq!(
        BindingError::UnsupportedConfigurationShape.message(),
        "Raw options are not implemented yet"
    );
    assert_ne!(
        BindingError::UnsupportedConfigurationShape,
        BindingError::Open("Raw options are not implemented yet".to_string())
    );
}

#[test]
fn the_version_names_this_build() {
    assert_eq!(VERSION, "0.1.0");
}
