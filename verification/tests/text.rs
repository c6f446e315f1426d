use glycin::color::{frame_color_state, icc_target, Cicp, ColorState};
use glycin::error::{
    err_context, err_no_context, Error, ErrorCtx, ProcessError, RemoteError,
};
use glycin::frame::DimensionTooLargerError;
use glycin::memory_format::MemoryFormat;
use glycin::text::{
    char_is_space, find_char, parse_i32, parse_u64, split_first, starts_with, str_equal,
    to_decimal, to_signed_decimal, trimmed, without_leading_spaces,
};

#[test]
fn white_space_as_the_standard_library_sees_it() {
    for code in 0..0x11_0000u32 {
        if let Some(c) = char::from_u32(code) {
            assert_eq!(char_is_space(c), c.is_whitespace(), "{code:x}");
        }
    }
}

#[test]
fn trimming() {
    for text in ["", " ", "a", "  a b \t\n", "\u{a0}x\u{3000}", "x  ", "  x", "\r\n"] {
        assert_eq!(trimmed(text), text.trim(), "{text:?}");
    }
    assert_eq!(without_leading_spaces("  a "), "a ");
    assert_eq!(without_leading_spaces("\ta"), "\ta");
    assert_eq!(without_leading_spaces("   "), "");
}

#[test]
fn searching() {
    assert_eq!(find_char("a:b:c", ':', 0), Some(1));
    assert_eq!(find_char("a:b:c", ':', 2), Some(3));
    assert_eq!(find_char("a:b:c", ':', 4), None);
    assert_eq!(find_char("äö:ü", ':', 0), Some(2));
    assert_eq!(split_first("a:b:c", ':'), ("a", Some("b:c")));
    assert_eq!(split_first("abc", ':'), ("abc", None));
    assert_eq!(split_first(":", ':'), ("", Some("")));
    assert_eq!(split_first("äö:ü", ':'), ("äö", Some("ü")));
    assert!(starts_with("MemAvailable: 5", "MemAvailable:"));
    assert!(!starts_with("MemAvail", "MemAvailable:"));
    assert!(starts_with("x", ""));
    assert!(str_equal("ab", "ab"));
    assert!(!str_equal("ab", "aB"));
}

#[test]
fn decimal_numbers() {
    for n in [0u64, 1, 9, 10, 99, 100, 12345, 4294967296, u64::MAX] {
        assert_eq!(to_decimal(n), n.to_string());
        assert_eq!(parse_u64(&n.to_string()), Some(n));
    }
    for n in [0i32, 1, -1, 10, -10, 123456, i32::MAX, i32::MIN] {
        assert_eq!(to_signed_decimal(n), n.to_string());
        assert_eq!(parse_i32(&n.to_string()), Some(n));
    }
}

#[test]
fn numbers_as_the_standard_library_reads_them() {
    for text in [
        "", "+", "-", "0", "+0", "-0", "00012", "12a", "a12", " 12", "12 ", "1 2", "+-1", "--1",
        "٣", "1_000", "18446744073709551615", "18446744073709551616", "99999999999999999999",
        "2147483647", "2147483648", "-2147483648", "-2147483649", "+2147483647", "1.0", "0x10",
    ] {
        assert_eq!(parse_u64(text), text.parse::<u64>().ok(), "{text:?}");
        assert_eq!(parse_i32(text), text.parse::<i32>().ok(), "{text:?}");
    }
}

#[test]
fn unsupported_formats() {
    assert_eq!(
        Error::UnknownImageFormat("image/x-foo".to_string()).unsupported_format(),
        Some("image/x-foo".to_string())
    );
    assert_eq!(
        Error::RemoteError(RemoteError::UnsupportedImageFormat("image/x-bar".to_string()))
            .unsupported_format(),
        Some("image/x-bar".to_string())
    );
    assert_eq!(Error::TextureTooLarge.unsupported_format(), None);
    assert_eq!(
        Error::RemoteError(RemoteError::LoadingError("x".to_string())).unsupported_format(),
        None
    );
    assert_eq!(Error::UnknownContentType("x".to_string()).unsupported_format(), None);
}

#[test]
fn out_of_memory() {
    assert!(Error::RemoteError(RemoteError::OutOfMemory("x".to_string())).is_out_of_memory());
    assert!(!Error::RemoteError(RemoteError::LoadingError("x".to_string())).is_out_of_memory());
    assert!(!Error::TextureTooLarge.is_out_of_memory());
    assert!(!Error::Canceled(None).is_out_of_memory());
}

#[test]
fn errors_of_helpers() {
    assert_eq!(
        ProcessError::expected("broken").into_loader_error(),
        RemoteError::LoadingError("broken".to_string())
    );
    assert_eq!(
        ProcessError::internal("bug").into_editor_error(),
        RemoteError::InternalLoaderError("bug".to_string())
    );
    assert_eq!(
        ProcessError::UnsupportedImageFormat("image/x-foo".to_string()).into_editor_error(),
        RemoteError::UnsupportedImageFormat("image/x-foo".to_string())
    );
    assert_eq!(
        ProcessError::OutOfMemory("much".to_string()).into_loader_error(),
        RemoteError::OutOfMemory("much".to_string())
    );
    assert_eq!(
        ProcessError::ConversionTooLargerError.into_loader_error(),
        RemoteError::InternalLoaderError("Conversion too large".to_string())
    );
    assert_eq!(
        Error::from_remote(RemoteError::OutOfMemory("x".to_string())),
        Error::RemoteError(RemoteError::OutOfMemory("x".to_string()))
    );
    assert_eq!(
        Error::from_dimension_error(DimensionTooLargerError),
        Error::ConversionTooLarge
    );
}

#[test]
fn error_with_what_the_helper_wrote() {
    let plain = ErrorCtx::from_error(Error::TextureTooLarge);
    assert_eq!(plain.error(), &Error::TextureTooLarge);
    assert_eq!(plain.describe("too large"), "too large");

    let result: Result<u8, Error> = Err(Error::LoaderUsedTwice);
    let ctx = err_context(result, Some("panicked".to_string()), Some(String::new())).unwrap_err();
    assert_eq!(ctx.error(), &Error::LoaderUsedTwice);
    assert_eq!(ctx.stderr(), &Some("panicked".to_string()));
    assert_eq!(ctx.describe("used twice"), "used twice\n\nstderr:\npanicked");

    let both = ErrorCtx::with_output(
        Error::InternalCommunicationCanceled,
        Some("e".to_string()),
        Some("o".to_string()),
    );
    assert_eq!(both.describe("x"), "x\n\nstderr:\ne\n\nstdout:\no");
    let only_out = ErrorCtx::with_output(Error::TransferredStream, None, Some("o".to_string()));
    assert_eq!(only_out.describe("x"), "x\n\nstdout:\no");

    assert_eq!(err_context(Ok::<u8, Error>(3), None, None), Ok(3));
    assert_eq!(err_no_context(Ok::<u8, Error>(3)), Ok(3));
    let ctx = err_no_context(Err::<u8, Error>(Error::TextureTooLarge)).unwrap_err();
    assert_eq!(ctx, ErrorCtx::from_error(Error::TextureTooLarge));
    assert_eq!(ctx.stdout(), &None);
}

#[test]
fn code_points() {
    let cicp = Cicp::from_bytes(&vec![9, 16, 0, 1]).unwrap();
    assert_eq!(cicp.color_primaries(), 9);
    assert_eq!(cicp.transfer_characteristics(), 16);
    assert_eq!(cicp.matrix_coefficients(), 0);
    assert_eq!(cicp.video_full_range_flag(), 1);
    assert_eq!(cicp.to_bytes(), vec![9, 16, 0, 1]);
    assert_eq!(Cicp::from_bytes(&vec![9, 16, 0]), None);
    assert_eq!(Cicp::from_bytes(&vec![9, 16, 0, 1, 0]), None);
    assert_eq!(Cicp::new_rec2020_linear().to_bytes(), vec![9, 8, 0, 1]);
}

#[test]
fn color_states() {
    assert_eq!(frame_color_state(&None), ColorState::Srgb);
    assert_eq!(frame_color_state(&Some(vec![1, 2])), ColorState::Srgb);
    assert_eq!(
        frame_color_state(&Some(vec![9, 16, 0, 1])),
        ColorState::Cicp(Cicp::from_bytes(&vec![9, 16, 0, 1]).unwrap())
    );
    // gray profiles end in sRGB, color profiles where the caller wants them
    assert_eq!(icc_target(MemoryFormat::G8a8, true), ColorState::Srgb);
    assert_eq!(icc_target(MemoryFormat::G16, false), ColorState::Srgb);
    assert_eq!(icc_target(MemoryFormat::R8g8b8, false), ColorState::Srgb);
    assert_eq!(
        icc_target(MemoryFormat::R8g8b8, true),
        ColorState::Cicp(Cicp::new_rec2020_linear())
    );
}
