use vstd::prelude::*;
use vstd::string::*;

verus! {

/// A K-line fetch request, as handed to the background fetch worker.
#[derive(Debug)]
pub struct FetchRequest {
    pub market: u16,
    pub code: String,
    pub category: u16,
    pub start: u16,
    pub count: u16,
}

/// Application-level errors with structured variants.
///
/// This keeps error handling explicit and avoids passing around ad-hoc
/// `String`s. The status line shows an error by its message (`to_string`).
#[derive(Debug)]
pub enum AppError {
    /// A user input field could not be parsed into the expected type.
    ParseU16 { field: &'static str, value: String },
    /// The SVG string could not be parsed.
    InvalidSvg { message: String },
    /// The SVG produced a zero-sized output (width or height became 0).
    EmptySvgImage,
    /// Failed to allocate the raster pixmap buffer.
    PixmapAllocFailed,
    /// Failed to initialize the TCP feed client.
    ClientInit { message: String },
    /// Failed to fetch K-line data over the network.
    FetchKLine { message: String },
    /// The server returned no data for the given query.
    NoKLineData,
    /// Invalid stock code input.
    InvalidInput { message: String },
}

impl AppError {
    /// The message shown for an error: a fixed text per variant, with the
    /// variant's payload spliced in where it carries one.
    pub open spec fn message_view(&self) -> Seq<char> {
        match self {
            AppError::ParseU16 { field, value } =>
                field@ + " must be a u16 (got '"@ + value@ + "')"@,
            AppError::InvalidSvg { message } => "Invalid SVG: "@ + message@,
            AppError::EmptySvgImage => "SVG produced an empty image"@,
            AppError::PixmapAllocFailed => "Failed to allocate pixmap buffer"@,
            AppError::ClientInit { message } => "FeedClient init failed: "@ + message@,
            AppError::FetchKLine { message } => "KLine fetch failed: "@ + message@,
            AppError::NoKLineData => "No KLine data returned"@,
            AppError::InvalidInput { message } => "Invalid stock code: "@ + message@,
        }
    }

    /// Renders the error as the text shown to the user.
    pub fn to_string(&self) -> (s: String)
        ensures
            s@ == self.message_view(),
    {
        match self {
            AppError::ParseU16 { field, value } => {
                let mut s = String::from_str(field);
                s.append(" must be a u16 (got '");
                s.append(value.as_str());
                s.append("')");
                s
            },
            AppError::InvalidSvg { message } => {
                String::from_str("Invalid SVG: ").concat(message.as_str())
            },
            AppError::EmptySvgImage => String::from_str("SVG produced an empty image"),
            AppError::PixmapAllocFailed => String::from_str("Failed to allocate pixmap buffer"),
            AppError::ClientInit { message } => {
                String::from_str("FeedClient init failed: ").concat(message.as_str())
            },
            AppError::FetchKLine { message } => {
                String::from_str("KLine fetch failed: ").concat(message.as_str())
            },
            AppError::NoKLineData => String::from_str("No KLine data returned"),
            AppError::InvalidInput { message } => {
                String::from_str("Invalid stock code: ").concat(message.as_str())
            },
        }
    }
}

/// `needle` occurs as a contiguous run of characters in `text`.
pub open spec fn shows_text(text: Seq<char>, needle: Seq<char>) -> bool {
    exists|i: int| 0 <= i && i + needle.len() <= text.len() && #[trigger] text.subrange(i, i + needle.len()) == needle
}

/// An error never passes silently: its message is non-empty, and the detail
/// it carries (the rejected input, or the underlying cause) appears verbatim
/// in the message.
pub proof fn error_message_shows_detail(e: AppError)
    ensures
        e.message_view().len() > 0,
        match e {
            AppError::ParseU16 { field, value } =>
                shows_text(e.message_view(), field@) && shows_text(e.message_view(), value@),
            AppError::InvalidSvg { message } => shows_text(e.message_view(), message@),
            AppError::ClientInit { message } => shows_text(e.message_view(), message@),
            AppError::FetchKLine { message } => shows_text(e.message_view(), message@),
            AppError::InvalidInput { message } => shows_text(e.message_view(), message@),
            _ => true,
        },
{
    reveal_strlit(" must be a u16 (got '");
    reveal_strlit("')");
    reveal_strlit("Invalid SVG: ");
    reveal_strlit("SVG produced an empty image");
    reveal_strlit("Failed to allocate pixmap buffer");
    reveal_strlit("FeedClient init failed: ");
    reveal_strlit("KLine fetch failed: ");
    reveal_strlit("No KLine data returned");
    reveal_strlit("Invalid stock code: ");
    let m = e.message_view();
    match e {
        AppError::ParseU16 { field, value } => {
            let head = field@ + " must be a u16 (got '"@;
            assert(m.subrange(0int, 0int + field@.len()) =~= field@);
            assert(m.subrange(head.len() as int, (head.len() + value@.len()) as int) =~= value@);
        },
        AppError::InvalidSvg { message } => {
            let k = "Invalid SVG: "@.len() as int;
            assert(m.subrange(k, k + message@.len()) =~= message@);
        },
        AppError::ClientInit { message } => {
            let k = "FeedClient init failed: "@.len() as int;
            assert(m.subrange(k, k + message@.len()) =~= message@);
        },
        AppError::FetchKLine { message } => {
            let k = "KLine fetch failed: "@.len() as int;
            assert(m.subrange(k, k + message@.len()) =~= message@);
        },
        AppError::InvalidInput { message } => {
            let k = "Invalid stock code: "@.len() as int;
            assert(m.subrange(k, k + message@.len()) =~= message@);
        },
        _ => {},
    }
}

/// `text` ends with `detail`.
pub open spec fn ends_with(text: Seq<char>, detail: Seq<char>) -> bool {
    detail.len() <= text.len() && text.subrange(text.len() - detail.len(), text.len() as int) == detail
}

/// What stands in `text` before its final `detail`.
pub open spec fn head_before(text: Seq<char>, detail: Seq<char>) -> Seq<char> {
    text.subrange(0, text.len() - detail.len())
}

/// A K-line fetch failure reads "KLine fetch failed: " followed by the cause,
/// for every cause.
pub proof fn fetch_kline_text(m: String)
    ensures
        (AppError::FetchKLine { message: m }).message_view() == "KLine fetch failed: "@ + m@,
{
}

/// A feed client init failure reads "FeedClient init failed: " followed by the
/// cause, for every cause.
pub proof fn client_init_text(m: String)
    ensures
        (AppError::ClientInit { message: m }).message_view() == "FeedClient init failed: "@ + m@,
{
}

/// An invalid stock code reads "Invalid stock code: " followed by the reason,
/// whatever its length.
pub proof fn invalid_input_text(m: String)
    ensures
        (AppError::InvalidInput { message: m }).message_view() == "Invalid stock code: "@ + m@,
{
}

/// An SVG parse failure reads "Invalid SVG: " followed by the parser's text.
pub proof fn invalid_svg_text(m: String)
    ensures
        (AppError::InvalidSvg { message: m }).message_view() == "Invalid SVG: "@ + m@,
{
}

/// A rejected numeric field reads FIELD, " must be a u16 (got '", the raw
/// value, then "')", whatever the field and the value hold.
pub proof fn parse_u16_text(f: &'static str, v: String)
    ensures
        (AppError::ParseU16 { field: f, value: v }).message_view()
            == f@ + " must be a u16 (got '"@ + v@ + "')"@,
{
}

/// The payload of an error fills only its own slot: two errors of the same
/// variant end with their own detail, and what stands before it is the same
/// for both, whatever the two details are.
pub proof fn detail_fills_only_its_slot(m1: String, m2: String)
    ensures
        ({
            let a = (AppError::InvalidSvg { message: m1 }).message_view();
            let b = (AppError::InvalidSvg { message: m2 }).message_view();
            ends_with(a, m1@) && ends_with(b, m2@) && head_before(a, m1@) == head_before(b, m2@)
        }),
        ({
            let a = (AppError::ClientInit { message: m1 }).message_view();
            let b = (AppError::ClientInit { message: m2 }).message_view();
            ends_with(a, m1@) && ends_with(b, m2@) && head_before(a, m1@) == head_before(b, m2@)
        }),
        ({
            let a = (AppError::FetchKLine { message: m1 }).message_view();
            let b = (AppError::FetchKLine { message: m2 }).message_view();
            ends_with(a, m1@) && ends_with(b, m2@) && head_before(a, m1@) == head_before(b, m2@)
        }),
        ({
            let a = (AppError::InvalidInput { message: m1 }).message_view();
            let b = (AppError::InvalidInput { message: m2 }).message_view();
            ends_with(a, m1@) && ends_with(b, m2@) && head_before(a, m1@) == head_before(b, m2@)
        }),
{
    let a = (AppError::InvalidSvg { message: m1 }).message_view();
    let b = (AppError::InvalidSvg { message: m2 }).message_view();
    assert(a.subrange(a.len() - m1@.len(), a.len() as int) =~= m1@);
    assert(b.subrange(b.len() - m2@.len(), b.len() as int) =~= m2@);
    assert(head_before(a, m1@) =~= head_before(b, m2@));
    let a = (AppError::ClientInit { message: m1 }).message_view();
    let b = (AppError::ClientInit { message: m2 }).message_view();
    assert(a.subrange(a.len() - m1@.len(), a.len() as int) =~= m1@);
    assert(b.subrange(b.len() - m2@.len(), b.len() as int) =~= m2@);
    assert(head_before(a, m1@) =~= head_before(b, m2@));
    let a = (AppError::FetchKLine { message: m1 }).message_view();
    let b = (AppError::FetchKLine { message: m2 }).message_view();
    assert(a.subrange(a.len() - m1@.len(), a.len() as int) =~= m1@);
    assert(b.subrange(b.len() - m2@.len(), b.len() as int) =~= m2@);
    assert(head_before(a, m1@) =~= head_before(b, m2@));
    let a = (AppError::InvalidInput { message: m1 }).message_view();
    let b = (AppError::InvalidInput { message: m2 }).message_view();
    assert(a.subrange(a.len() - m1@.len(), a.len() as int) =~= m1@);
    assert(b.subrange(b.len() - m2@.len(), b.len() as int) =~= m2@);
    assert(head_before(a, m1@) =~= head_before(b, m2@));
}

/// For a rejected numeric field, the value only fills its slot: with the same
/// field, two values give texts that agree before the value and both end
/// with "')" right after it.
pub proof fn parse_u16_value_fills_only_its_slot(f: &'static str, v1: String, v2: String)
    ensures
        ({
            let a = (AppError::ParseU16 { field: f, value: v1 }).message_view();
            let b = (AppError::ParseU16 { field: f, value: v2 }).message_view();
            let ka = a.len() - v1@.len() - 2;
            let kb = b.len() - v2@.len() - 2;
            &&& ka >= f@.len()
            &&& a.subrange(0, ka) == b.subrange(0, kb)
            &&& a.subrange(ka, ka + v1@.len()) == v1@
            &&& b.subrange(kb, kb + v2@.len()) == v2@
            &&& a.subrange(ka + v1@.len(), a.len() as int) == b.subrange(kb + v2@.len(), b.len() as int)
        }),
{
    reveal_strlit(" must be a u16 (got '");
    reveal_strlit("')");
    let a = (AppError::ParseU16 { field: f, value: v1 }).message_view();
    let b = (AppError::ParseU16 { field: f, value: v2 }).message_view();
    let head = f@ + " must be a u16 (got '"@;
    assert(a =~= head + v1@ + "')"@);
    assert(b =~= head + v2@ + "')"@);
    let ka = a.len() - v1@.len() - 2;
    let kb = b.len() - v2@.len() - 2;
    assert(a.subrange(0, ka) =~= head);
    assert(b.subrange(0, kb) =~= head);
    assert(a.subrange(ka, ka + v1@.len()) =~= v1@);
    assert(b.subrange(kb, kb + v2@.len()) =~= v2@);
    assert(a.subrange(ka + v1@.len(), a.len() as int) =~= "')"@);
    assert(b.subrange(kb + v2@.len(), b.len() as int) =~= "')"@);
}

/// Whether an error is a rejected numeric field, whose text starts with the
/// caller's field name.
pub open spec fn is_parse_u16(e: AppError) -> bool {
    e is ParseU16
}

/// Errors of different kinds never read the same: apart from a rejected
/// numeric field (whose text starts with a caller-chosen field name), the
/// text tells the kind of failure apart, whatever the details.
pub proof fn kinds_read_differently(e1: AppError, e2: AppError)
    requires
        !is_parse_u16(e1),
        !is_parse_u16(e2),
        !(e1 is InvalidSvg && e2 is InvalidSvg),
        !(e1 is EmptySvgImage && e2 is EmptySvgImage),
        !(e1 is PixmapAllocFailed && e2 is PixmapAllocFailed),
        !(e1 is ClientInit && e2 is ClientInit),
        !(e1 is FetchKLine && e2 is FetchKLine),
        !(e1 is NoKLineData && e2 is NoKLineData),
        !(e1 is InvalidInput && e2 is InvalidInput),
    ensures
        e1.message_view() != e2.message_view(),
{
    reveal_strlit("Invalid SVG: ");
    reveal_strlit("SVG produced an empty image");
    reveal_strlit("Failed to allocate pixmap buffer");
    reveal_strlit("FeedClient init failed: ");
    reveal_strlit("KLine fetch failed: ");
    reveal_strlit("No KLine data returned");
    reveal_strlit("Invalid stock code: ");
    let a = e1.message_view();
    let b = e2.message_view();
    assert(a.len() > 8 && b.len() > 8);
    if a == b {
        assert(a[0] == b[0]);
        assert(a[1] == b[1]);
        assert(a[8] == b[8]);
    }
}

} // verus!
