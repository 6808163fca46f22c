use hygg_shared::{normalize_file_path, PathError};
use std::io::Write;

#[test]
fn test_normalize_file_path_with_null_bytes() {
    let result = normalize_file_path("test\0file.txt");
    assert!(matches!(result, Err(PathError::InvalidPath(_))));
}

#[test]
fn test_normalize_file_path_with_dangerous_chars() {
    let dangerous_paths = [
        "test|file.txt",
        "test&file.txt",
        "test;file.txt",
        "test`file.txt",
        "test$file.txt",
        "test<file>.txt",
    ];

    for dangerous_path in dangerous_paths {
        let result = normalize_file_path(dangerous_path);
        assert!(
            matches!(result, Err(PathError::InvalidPath(_))),
            "Should reject dangerous path: {}",
            dangerous_path
        );
    }
}

#[test]
fn test_normalize_file_path_nonexistent_file() {
    let result = normalize_file_path("definitely_nonexistent_file.txt");
    assert!(matches!(result, Err(PathError::FileNotFound(_))));
}

#[test]
fn test_normalize_file_path_directory() {
    let result = normalize_file_path(".");
    assert!(matches!(result, Err(PathError::NotAFile(_))));
}

#[test]
fn test_normalize_file_path_success() {
    let mut temp_file = tempfile::Builder::new()
        .prefix("hygg_test_file")
        .suffix(".txt")
        .tempfile()
        .unwrap();
    temp_file.write_all(b"test content").unwrap();

    let result = normalize_file_path(temp_file.path().to_str().unwrap());
    assert!(result.is_ok());
}

#[test]
fn test_path_error_display() {
    let file_error = PathError::FileNotFound("test.txt".to_string());
    assert_eq!(file_error.to_string(), "File not found: test.txt");

    let invalid_error = PathError::InvalidPath("Bad path".to_string());
    assert_eq!(invalid_error.to_string(), "Invalid path: Bad path");

    let not_file_error = PathError::NotAFile("is directory".to_string());
    assert_eq!(not_file_error.to_string(), "Not a file: is directory");

    let io_error = PathError::IoError("permission denied".to_string());
    assert_eq!(io_error.to_string(), "I/O error: permission denied");
}

#[test]
fn test_basic_path_formats() {
    // The files sit in a temporary directory, reached by a relative path.
    let temp_dir = tempfile::TempDir::new().unwrap();
    let mut plain = tempfile::Builder::new()
        .prefix("test.csv")
        .rand_bytes(0)
        .tempfile_in(temp_dir.path())
        .unwrap();
    plain.write_all(b"data").unwrap();
    let mut spaced = tempfile::Builder::new()
        .prefix("Nærri\\ lýsing\\ av\\ gjalding_flyting\\ \\(1\\).csv")
        .rand_bytes(0)
        .tempfile_in(temp_dir.path())
        .unwrap();
    spaced.write_all(b"data").unwrap();
    let dir = relative_to_cwd(temp_dir.path());

    // Forward slash relative path
    let result = normalize_file_path(&format!("{}/./test.csv", dir));
    assert!(result.is_ok(), "Forward slash path should work: {:?}", result.err());

    // Backslash relative path: a separator on Windows, a literal character elsewhere
    let result = normalize_file_path(&format!("{}/.\\test.csv", dir));
    if std::path::MAIN_SEPARATOR == '\\' {
        assert!(result.is_ok(), "Backslash should work on Windows: {:?}", result.err());
    } else {
        assert!(result.is_err(), "Backslash should fail on Unix (literal character)");
    }

    // Path with spaces and special chars, already unescaped by the caller
    let result = normalize_file_path(&format!(
        "{}/Nærri\\ lýsing\\ av\\ gjalding_flyting\\ \\(1\\).csv",
        dir
    ));
    assert!(result.is_ok(), "Path with spaces should work: {:?}", result.err());
}

/// A path to `target` relative to the working directory, made of `..` steps
/// up to the root and then `target`'s own components.
fn relative_to_cwd(target: &std::path::Path) -> String {
    let cwd = std::path::Path::new(".").canonicalize().unwrap();
    let target = target.canonicalize().unwrap();
    let mut rel = String::new();
    for _ in cwd.components().skip(1) {
        rel.push_str("../");
    }
    rel.push_str(target.strip_prefix("/").unwrap().to_str().unwrap());
    rel
}
