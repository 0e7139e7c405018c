use guaviewer::model::AppError;
use guaviewer::model::FetchRequest;

#[test]
fn parse_u16_message_names_field_and_value() {
    let e = AppError::ParseU16 { field: "market", value: "abc".to_string() };
    assert_eq!(e.to_string(), "market must be a u16 (got 'abc')");
}

#[test]
fn parse_u16_message_keeps_untrimmed_value() {
    let e = AppError::ParseU16 { field: "count", value: " 9x ".to_string() };
    assert_eq!(e.to_string(), "count must be a u16 (got ' 9x ')");
}

#[test]
fn parse_u16_message_with_empty_value() {
    let e = AppError::ParseU16 { field: "start", value: String::new() };
    assert_eq!(e.to_string(), "start must be a u16 (got '')");
}

#[test]
fn invalid_svg_message() {
    let e = AppError::InvalidSvg { message: "unexpected end of stream".to_string() };
    assert_eq!(e.to_string(), "Invalid SVG: unexpected end of stream");
}

#[test]
fn empty_svg_image_message() {
    assert_eq!(AppError::EmptySvgImage.to_string(), "SVG produced an empty image");
}

#[test]
fn pixmap_alloc_failed_message() {
    assert_eq!(AppError::PixmapAllocFailed.to_string(), "Failed to allocate pixmap buffer");
}

#[test]
fn client_init_message() {
    let e = AppError::ClientInit { message: "connection refused".to_string() };
    assert_eq!(e.to_string(), "FeedClient init failed: connection refused");
}

#[test]
fn fetch_kline_message() {
    let e = AppError::FetchKLine { message: "timed out".to_string() };
    assert_eq!(e.to_string(), "KLine fetch failed: timed out");
}

#[test]
fn no_kline_data_message() {
    assert_eq!(AppError::NoKLineData.to_string(), "No KLine data returned");
}

#[test]
fn invalid_input_message() {
    let e = AppError::InvalidInput {
        message: "code must be exactly 6 digits (e.g. 000001)".to_string(),
    };
    let s = e.to_string();
    assert_eq!(s, "Invalid stock code: code must be exactly 6 digits (e.g. 000001)");
    assert!(s.contains("exactly 6"));
}

#[test]
fn message_with_non_ascii_detail() {
    let e = AppError::InvalidInput { message: "代码必须是数字".to_string() };
    assert_eq!(e.to_string(), "Invalid stock code: 代码必须是数字");
}

#[test]
fn every_message_is_non_empty_and_shows_its_detail() {
    let detail = "cause-42";
    let errors = vec![
        AppError::InvalidSvg { message: detail.to_string() },
        AppError::ClientInit { message: detail.to_string() },
        AppError::FetchKLine { message: detail.to_string() },
        AppError::InvalidInput { message: detail.to_string() },
        AppError::ParseU16 { field: "category", value: detail.to_string() },
    ];
    for e in &errors {
        let s = e.to_string();
        assert!(!s.is_empty());
        assert!(s.contains(detail));
    }
    assert!(!AppError::EmptySvgImage.to_string().is_empty());
    assert!(!AppError::PixmapAllocFailed.to_string().is_empty());
    assert!(!AppError::NoKLineData.to_string().is_empty());
}

#[test]
fn empty_detail_still_gives_a_message() {
    let e = AppError::FetchKLine { message: String::new() };
    assert_eq!(e.to_string(), "KLine fetch failed: ");
}

#[test]
fn fetch_request_holds_its_fields() {
    let req = FetchRequest {
        market: 0,
        code: "000001".to_string(),
        category: 9,
        start: 0,
        count: 800,
    };
    assert_eq!(req.market, 0);
    assert_eq!(req.code, "000001");
    assert_eq!(req.category, 9);
    assert_eq!(req.start, 0);
    assert_eq!(req.count, 800);
    assert!(format!("{:?}", req).contains("000001"));
}

#[test]
fn fetch_request_is_send() {
    fn assert_send<T: Send>() {}
    assert_send::<FetchRequest>();
    assert_send::<AppError>();
}
