use imgresize::error::TransformError;
use imgresize::sizing::{parse_target_width, resized_dimensions, TargetWidth};

fn whole(n: u64) -> TargetWidth {
    TargetWidth { numerator: n, denominator: 1 }
}

#[test]
fn parses_whole_and_decimal_sizes() {
    assert_eq!(parse_target_width("400"), Ok(whole(400)));
    assert_eq!(parse_target_width("12.5"), Ok(TargetWidth { numerator: 125, denominator: 10 }));
    assert_eq!(parse_target_width("7."), Ok(whole(7)));
    assert_eq!(parse_target_width(".5"), Ok(TargetWidth { numerator: 5, denominator: 10 }));
    assert_eq!(parse_target_width("+400"), Ok(whole(400)));
}

#[test]
fn refuses_other_notations() {
    assert_eq!(parse_target_width("4e2"), Err(TransformError::InvalidRequest));
    assert_eq!(parse_target_width("1E3"), Err(TransformError::InvalidRequest));
    assert_eq!(parse_target_width("4+"), Err(TransformError::InvalidRequest));
    assert_eq!(parse_target_width("++4"), Err(TransformError::InvalidRequest));
    assert_eq!(parse_target_width("inf"), Err(TransformError::InvalidRequest));
    assert_eq!(
        parse_target_width("400.00000000000000000001"),
        Err(TransformError::Resize)
    );
}

#[test]
fn rejects_malformed_sizes() {
    assert_eq!(parse_target_width("-5"), Err(TransformError::InvalidRequest));
    assert_eq!(parse_target_width("abc"), Err(TransformError::InvalidRequest));
    assert_eq!(parse_target_width(""), Err(TransformError::InvalidRequest));
    assert_eq!(parse_target_width("."), Err(TransformError::InvalidRequest));
    assert_eq!(parse_target_width("1.2.3"), Err(TransformError::InvalidRequest));
    assert_eq!(parse_target_width("40x"), Err(TransformError::InvalidRequest));
}

#[test]
fn rejects_zero_and_oversized_sizes() {
    assert_eq!(parse_target_width("0"), Err(TransformError::Resize));
    assert_eq!(parse_target_width("0.000"), Err(TransformError::Resize));
    assert_eq!(parse_target_width("99999999999999999999"), Err(TransformError::Resize));
}

#[test]
fn keeps_aspect_ratio() {
    assert_eq!(resized_dimensions(800, 600, whole(400)), Ok((400, 300)));
    assert_eq!(resized_dimensions(600, 800, whole(300)), Ok((300, 400)));
}

#[test]
fn floors_the_height() {
    // 10 * 2 / 3 = 6.67
    assert_eq!(resized_dimensions(3, 10, whole(2)), Ok((2, 6)));
    // 50 * 12.5 / 100 = 6.25
    let t = TargetWidth { numerator: 125, denominator: 10 };
    assert_eq!(resized_dimensions(100, 50, t), Ok((12, 6)));
    // 7 * 1000 / 999 = 7.007
    assert_eq!(resized_dimensions(999, 7, whole(1000)), Ok((1000, 7)));
}

#[test]
fn rejects_degenerate_dimensions() {
    assert_eq!(resized_dimensions(800, 1, whole(400)), Err(TransformError::Resize));
    assert_eq!(resized_dimensions(0, 10, whole(4)), Err(TransformError::Resize));
    let half = TargetWidth { numerator: 5, denominator: 10 };
    assert_eq!(resized_dimensions(10, 10, half), Err(TransformError::Resize));
    let no_denominator = TargetWidth { numerator: 5, denominator: 0 };
    assert_eq!(resized_dimensions(10, 10, no_denominator), Err(TransformError::Resize));
    assert_eq!(resized_dimensions(1, 1, whole(5_000_000_000)), Err(TransformError::Resize));
}

#[test]
fn error_kinds_have_names() {
    assert_eq!(TransformError::InvalidRequest.kind_name(), "InvalidRequest");
    assert_eq!(TransformError::Decode.kind_name(), "DecodeError");
    assert_eq!(TransformError::Resize.kind_name(), "ResizeError");
    assert_eq!(TransformError::Encode.kind_name(), "EncodeError");
    assert_eq!(TransformError::Fetch.kind_name(), "FetchError");
    assert_eq!(TransformError::Upload.kind_name(), "UploadError");
}

#[test]
fn error_kinds_map_to_statuses() {
    assert_eq!(TransformError::InvalidRequest.status_code(), 400);
    assert_eq!(TransformError::Decode.status_code(), 400);
    assert_eq!(TransformError::Resize.status_code(), 400);
    assert_eq!(TransformError::Fetch.status_code(), 502);
    assert_eq!(TransformError::Upload.status_code(), 502);
    assert_eq!(TransformError::Encode.status_code(), 500);
}
