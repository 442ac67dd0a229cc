use mediacore::errors::{i32_to_decimal, u64_to_decimal, CoreError};
use mediacore::remote::classify_http_status;
use mediacore::text::greet;

#[test]
fn decimal_renderings_are_exact() {
    assert_eq!(u64_to_decimal(0), "0");
    assert_eq!(u64_to_decimal(7), "7");
    assert_eq!(u64_to_decimal(10), "10");
    assert_eq!(u64_to_decimal(204), "204");
    assert_eq!(u64_to_decimal(u64::MAX), "18446744073709551615");
    assert_eq!(i32_to_decimal(0), "0");
    assert_eq!(i32_to_decimal(-1), "-1");
    assert_eq!(i32_to_decimal(1234), "1234");
    assert_eq!(i32_to_decimal(i32::MIN), "-2147483648");
    assert_eq!(i32_to_decimal(i32::MAX), "2147483647");
}

#[test]
fn error_messages_carry_their_context() {
    let exec = CoreError::CommandExecutionError {
        exit_code: Some(-3),
        stderr_text: "boom".to_string(),
    };
    assert_eq!(exec.message(), "command failed with exit code -3: boom");
    let no_code = CoreError::CommandExecutionError {
        exit_code: None,
        stderr_text: "gone".to_string(),
    };
    assert_eq!(no_code.message(), "command failed without an exit code: gone");
    let missing = CoreError::EncoderNotFoundError {
        expected_path: "/r/resources/ffmpeg/ffmpeg".to_string(),
    };
    assert_eq!(
        missing.message(),
        "encoder not found at: /r/resources/ffmpeg/ffmpeg"
    );
    let unsupported = CoreError::UnsupportedConversionKind {
        kind: "webm".to_string(),
    };
    assert_eq!(unsupported.message(), "unsupported conversion kind: webm");
    let http = CoreError::HttpError { status: 404 };
    assert_eq!(http.message(), "http request failed with status 404");
    let io = CoreError::IOError {
        message: "denied".to_string(),
    };
    assert_eq!(io.message(), "io error: denied");
    let trash = CoreError::TrashError {
        message: "no service".to_string(),
    };
    assert_eq!(trash.message(), "trash error: no service");
    let spawn = CoreError::ProcessSpawnError {
        message: "missing".to_string(),
    };
    assert_eq!(spawn.message(), "failed to start process: missing");
}

#[test]
fn http_statuses_classify_by_the_2xx_range() {
    assert!(classify_http_status(200).is_ok());
    assert!(classify_http_status(204).is_ok());
    assert!(classify_http_status(299).is_ok());
    for status in [0u16, 199, 300, 301, 404, 500] {
        match classify_http_status(status) {
            Err(CoreError::HttpError { status: reported }) => assert_eq!(reported, status),
            _ => panic!("a status outside 2xx must be an http error"),
        }
    }
}

#[test]
fn greeting_embeds_the_name() {
    assert_eq!(greet("World"), "Hello, World! You've been greeted from Rust!");
    assert_eq!(greet(""), "Hello, ! You've been greeted from Rust!");
}
