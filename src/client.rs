//! The decisions of the remote client: how responses are classified, how
//! requests are parameterised, and how pages come back in the configured
//! encoding. The HTTP exchange itself is performed by the caller.

use base64::Engine;
use vstd::prelude::*;
use vstd::string::StringExecFns;
use vstd::utf8::encode_utf8;
use crate::config::DownloadFormat;
use crate::naming::push_str;
use crate::text::{decimal, push_decimal, string_of};

verus! {

/// The remote operations; a risk-control response is tagged with the one
/// that received it.
#[derive(Debug, Clone, Copy, PartialEq, Eq, Structural)]
pub enum ApiOperation {
    Register,
    Login,
    GetUserProfile,
    Search,
    GetComic,
    GetChapter,
    GetChapters,
    GetFavorite,
}

/// A risk-control (HTTP 210) response, tagged by operation, with its body.
#[derive(Debug, Clone)]
pub enum RiskControlError {
    Register(String),
    Login(String),
    GetUserProfile(String),
    Search(String),
    GetComic(String),
    GetChapter(String),
    GetChapters(String),
    GetFavorite(String),
}

impl RiskControlError {
    /// The operation that received the response.
    pub open spec fn operation(&self) -> ApiOperation {
        match self {
            RiskControlError::Register(_) => ApiOperation::Register,
            RiskControlError::Login(_) => ApiOperation::Login,
            RiskControlError::GetUserProfile(_) => ApiOperation::GetUserProfile,
            RiskControlError::Search(_) => ApiOperation::Search,
            RiskControlError::GetComic(_) => ApiOperation::GetComic,
            RiskControlError::GetChapter(_) => ApiOperation::GetChapter,
            RiskControlError::GetChapters(_) => ApiOperation::GetChapters,
            RiskControlError::GetFavorite(_) => ApiOperation::GetFavorite,
        }
    }

    /// The response body.
    pub open spec fn body(&self) -> Seq<char> {
        match self {
            RiskControlError::Register(b) => b@,
            RiskControlError::Login(b) => b@,
            RiskControlError::GetUserProfile(b) => b@,
            RiskControlError::Search(b) => b@,
            RiskControlError::GetComic(b) => b@,
            RiskControlError::GetChapter(b) => b@,
            RiskControlError::GetChapters(b) => b@,
            RiskControlError::GetFavorite(b) => b@,
        }
    }

    /// Tags a risk-control body with the operation that received it.
    pub fn for_operation(op: ApiOperation, body: String) -> (r: RiskControlError)
        ensures
            r.operation() == op,
            r.body() == body@,
    {
        match op {
            ApiOperation::Register => RiskControlError::Register(body),
            ApiOperation::Login => RiskControlError::Login(body),
            ApiOperation::GetUserProfile => RiskControlError::GetUserProfile(body),
            ApiOperation::Search => RiskControlError::Search(body),
            ApiOperation::GetComic => RiskControlError::GetComic(body),
            ApiOperation::GetChapter => RiskControlError::GetChapter(body),
            ApiOperation::GetChapters => RiskControlError::GetChapters(body),
            ApiOperation::GetFavorite => RiskControlError::GetFavorite(body),
        }
    }
}

/// What went wrong in a remote call.
#[derive(Debug, Clone)]
pub enum CopyMangaError {
    /// Any failure but risk control, with a message.
    Other(String),
    /// The remote refused the call for risk control.
    RiskControl(RiskControlError),
    /// The primary user's token is wrong or expired, with the response body.
    StaleToken(String),
}

/// How a response with this HTTP status is treated.
#[derive(Debug, Clone, Copy, PartialEq, Eq, Structural)]
pub enum StatusClass {
    Success,
    RiskControl,
    StaleToken,
    Unexpected,
}

/// 200 is success and 210 risk control; 401 on the profile call means the
/// token is stale; anything else is unexpected.
pub open spec fn status_class(op: ApiOperation, status: u16) -> StatusClass {
    if status == 200 {
        StatusClass::Success
    } else if status == 210 {
        StatusClass::RiskControl
    } else if status == 401 && op == ApiOperation::GetUserProfile {
        StatusClass::StaleToken
    } else {
        StatusClass::Unexpected
    }
}

fn message(s: &str) -> (r: String)
    ensures
        r@ == s@,
{
    String::from_str(s)
}

/// Checks the HTTP status of the response to `op`: success hands the body on;
/// a 210 becomes a risk-control error tagged with `op` and carrying the body;
/// a 401 on the profile call reports a stale token; every other status is an
/// ordinary error.
pub fn check_status(op: ApiOperation, status: u16, body: String) -> (r: Result<String, CopyMangaError>)
    ensures
        status_class(op, status) == StatusClass::Success <==> r is Ok,
        r matches Ok(b) ==> b@ == body@,
        status_class(op, status) == StatusClass::RiskControl <==> r is Err && r->Err_0 is RiskControl,
        r matches Err(CopyMangaError::RiskControl(e)) ==> e.operation() == op && e.body() == body@,
        status_class(op, status) == StatusClass::StaleToken <==> r is Err && r->Err_0 is StaleToken,
        r matches Err(CopyMangaError::StaleToken(b)) ==> b@ == body@,
        status_class(op, status) == StatusClass::Unexpected <==> r is Err && r->Err_0 is Other,
{
    if status == 200 {
        Ok(body)
    } else if status == 210 {
        Err(CopyMangaError::RiskControl(RiskControlError::for_operation(op, body)))
    } else if status == 401 && op == ApiOperation::GetUserProfile {
        Err(CopyMangaError::StaleToken(body))
    } else {
        let mut m = message("unexpected HTTP status: ");
        m.append(body.as_str());
        Err(CopyMangaError::Other(m))
    }
}

/// Checks the `code` of a decoded envelope: only 200 is success.
pub fn check_envelope_code(code: i64) -> (r: Result<(), CopyMangaError>)
    ensures
        r is Ok <==> code == 200,
        r matches Err(e) ==> e is Other,
{
    if code == 200 {
        Ok(())
    } else {
        Err(CopyMangaError::Other(message("unexpected envelope code")))
    }
}

/// The salt appended to passwords before they are encoded for login.
pub const PASSWORD_SALT: &'static str = "1729";

/// The standard base64 encoding (with padding) of `b`.
pub uninterp spec fn base64_standard_of(b: Seq<u8>) -> Seq<char>;

/// Relies on base64's `STANDARD` engine `encode`: the padded standard
/// alphabet encoding of the bytes, four characters for every three bytes
/// begun.
#[verifier::external_body]
fn base64_encode(b: &[u8]) -> (r: String)
    ensures
        r@ == base64_standard_of(b@),
        r@.len() == 4 * ((b@.len() + 2) / 3),
{
    base64::engine::general_purpose::STANDARD.encode(b)
}

/// The `password` form field of a login: base64 of the UTF-8 bytes of
/// `<password>-1729`.
pub fn encode_password(password: &str) -> (r: String)
    ensures
        r@ == base64_standard_of(encode_utf8(password@ + "-"@ + PASSWORD_SALT@)),
{
    let salted = String::from_str(password).concat("-").concat(PASSWORD_SALT);
    base64_encode(salted.as_str().as_bytes())
}

/// Page size of a search.
pub const SEARCH_LIMIT: i64 = 20;

/// Page size of the favourites list.
pub const FAVORITE_LIMIT: i64 = 18;

/// Page size of a chapter listing.
pub const CHAPTERS_LIMIT: i64 = 500;

/// The offset of 1-based page `page_num` with pages of `limit` items, when it
/// fits in an `i64`.
pub fn page_offset(page_num: i64, limit: i64) -> (r: Option<i64>)
    requires
        limit > 0,
    ensures
        r is Some <==> i64::MIN <= (page_num - 1) * limit <= i64::MAX,
        r matches Some(o) ==> o == (page_num - 1) * limit,
{
    let a: i128 = page_num as i128 - 1;
    let b: i128 = limit as i128;
    assert(-0x4000_0000_0000_0000_0000_0000_0000_0000 <= a * b <= 0x4000_0000_0000_0000_0000_0000_0000_0000)
        by (nonlinear_arith)
        requires
            -0x8000_0000_0000_0001 <= a <= 0x7fff_ffff_ffff_fffe,
            0 < b <= 0x7fff_ffff_ffff_ffff;
    let o: i128 = a * b;
    if o < i64::MIN as i128 || o > i64::MAX as i128 {
        None
    } else {
        Some(o as i64)
    }
}

/// The number of pages a listing of `total` items takes with pages of
/// `limit`: at least one, since the first page is always fetched.
pub open spec fn page_count(total: int, limit: int) -> int {
    if total <= limit {
        1
    } else {
        total / limit + if total % limit == 0 { 0int } else { 1int }
    }
}

/// The offsets of the pages after the first of a listing of `total` items,
/// in page order.
pub fn remaining_page_offsets(total: i64, limit: i64) -> (r: Vec<i64>)
    requires
        limit > 0,
    ensures
        r@.len() == page_count(total as int, limit as int) - 1,
        forall|i: int| 0 <= i < r@.len() ==> #[trigger] r@[i] == (i + 1) * limit,
{
    let mut r: Vec<i64> = Vec::new();
    if total <= limit {
        return r;
    }
    let q = total / limit;
    assert(q >= 1 && (total % limit != 0 ==> limit >= 2 && q < i64::MAX)) by (nonlinear_arith)
        requires
            q == total / limit,
            limit > 0,
            total > limit;
    let pages: i64 = if total % limit == 0 { q } else { q + 1 };
    assert((pages - 1) * limit < total) by (nonlinear_arith)
        requires
            q == total / limit,
            limit > 0,
            total > limit,
            total % limit == 0 ==> pages == q,
            total % limit != 0 ==> pages == q + 1;
    let mut p: i64 = 1;
    while p < pages
        invariant
            limit > 0,
            total > limit,
            1 <= p <= pages,
            pages == page_count(total as int, limit as int),
            (pages - 1) * limit < total,
            r@.len() == p - 1,
            forall|i: int| 0 <= i < r@.len() ==> #[trigger] r@[i] == (i + 1) * limit,
        decreases pages - p,
    {
        assert(p * limit <= (pages - 1) * limit) by (nonlinear_arith)
            requires p <= pages - 1, limit > 0;
        r.push(p * limit);
        p += 1;
    }
    r
}

/// Joins the pages of a listing in page order.
pub fn concat_pages<T>(pages: Vec<Vec<T>>) -> (r: Vec<T>)
    ensures
        r@ == pages@.map_values(|p: Vec<T>| p@).flatten(),
{
    let ghost all = pages@.map_values(|p: Vec<T>| p@).flatten();
    let mut pages = pages;
    let mut out: Vec<T> = Vec::new();
    while pages.len() > 0
        invariant
            out@ + pages@.map_values(|p: Vec<T>| p@).flatten() == all,
        decreases pages.len(),
    {
        let ghost before = pages@.map_values(|p: Vec<T>| p@);
        let mut p = pages.remove(0);
        proof {
            let after = pages@.map_values(|p: Vec<T>| p@);
            assert(before.drop_first() =~= after);
            assert(before.first() == p@);
        }
        let ghost pv = p@;
        out.append(&mut p);
        proof {
            assert(before.flatten() == pv + before.drop_first().flatten());
            assert(out@ + pages@.map_values(|p: Vec<T>| p@).flatten() =~= all);
        }
    }
    assert(pages@.map_values(|p: Vec<T>| p@) =~= Seq::<Seq<T>>::empty());
    assert(out@ =~= all);
    out
}

/// The encoding a page was served in, from its `content-type` header: WebP
/// and JPEG are the only ones expected.
pub fn format_of_content_type(content_type: &str) -> (r: Option<DownloadFormat>)
    ensures
        content_type@ == "image/webp"@ ==> r == Some(DownloadFormat::Webp),
        content_type@ == "image/jpeg"@ ==> r == Some(DownloadFormat::Jpeg),
        content_type@ != "image/webp"@ && content_type@ != "image/jpeg"@ ==> r is None,
{
    proof {
        reveal_strlit("image/webp");
        reveal_strlit("image/jpeg");
        assert("image/webp"@[6] != "image/jpeg"@[6]);
    }
    let ct = String::from_str(content_type);
    if ct == String::from_str("image/webp") {
        Some(DownloadFormat::Webp)
    } else if ct == String::from_str("image/jpeg") {
        Some(DownloadFormat::Jpeg)
    } else {
        None
    }
}

/// image's error type, carried opaquely from its decoders and encoders.
#[verifier::external_type_specification]
#[verifier::external_body]
pub struct ExImageError(image::ImageError);

/// The bytes image's codecs produce when `data` is decoded and written back
/// as WebP from its RGBA8 pixels.
pub uninterp spec fn webp_reencoding_of(data: Seq<u8>) -> Seq<u8>;

/// The bytes image's codecs produce when `data` is decoded and written back
/// as JPEG from its RGB8 pixels.
pub uninterp spec fn jpeg_reencoding_of(data: Seq<u8>) -> Seq<u8>;

/// Whether image decodes `data` and writes its RGBA8 pixels as WebP.
pub uninterp spec fn webp_reencodes(data: Seq<u8>) -> bool;

/// Whether image decodes `data` and writes its RGB8 pixels as JPEG.
pub uninterp spec fn jpeg_reencodes(data: Seq<u8>) -> bool;

/// Relies on image's `load_from_memory`, `DynamicImage::to_rgba8` and
/// `write_to` with `ImageFormat::WebP`: decoding and re-encoding are functions
/// of the bytes alone.
#[verifier::external_body]
fn reencode_as_webp(data: &[u8]) -> (r: Result<Vec<u8>, image::ImageError>)
    ensures
        r is Ok <==> webp_reencodes(data@),
        r matches Ok(v) ==> v@ == webp_reencoding_of(data@),
{
    let img = image::load_from_memory(data)?;
    let mut out = Vec::new();
    img.to_rgba8().write_to(&mut std::io::Cursor::new(&mut out), image::ImageFormat::WebP)?;
    Ok(out)
}

/// Relies on image's `load_from_memory`, `DynamicImage::to_rgb8` and
/// `write_to` with `ImageFormat::Jpeg`: decoding and re-encoding are functions
/// of the bytes alone.
#[verifier::external_body]
fn reencode_as_jpeg(data: &[u8]) -> (r: Result<Vec<u8>, image::ImageError>)
    ensures
        r is Ok <==> jpeg_reencodes(data@),
        r matches Ok(v) ==> v@ == jpeg_reencoding_of(data@),
{
    let img = image::load_from_memory(data)?;
    let mut out = Vec::new();
    img.to_rgb8().write_to(&mut std::io::Cursor::new(&mut out), image::ImageFormat::Jpeg)?;
    Ok(out)
}

/// `data`, served in `source`, as it is stored in `target`.
pub open spec fn in_target_format(data: Seq<u8>, source: DownloadFormat, target: DownloadFormat) -> Seq<u8> {
    if source == target {
        data
    } else if target == DownloadFormat::Webp {
        webp_reencoding_of(data)
    } else {
        jpeg_reencoding_of(data)
    }
}

/// Whether a page served in `source` can be brought into `target`.
pub open spec fn converts(data: Seq<u8>, source: DownloadFormat, target: DownloadFormat) -> bool {
    source == target || (target == DownloadFormat::Webp && webp_reencodes(data))
        || (target == DownloadFormat::Jpeg && jpeg_reencodes(data))
}

/// Brings a page served in `source` into the configured `target` encoding:
/// unchanged when they agree, else decoded and re-encoded.
pub fn convert_to_format(data: Vec<u8>, source: DownloadFormat, target: DownloadFormat)
    -> (r: Result<Vec<u8>, CopyMangaError>)
    ensures
        r is Ok <==> converts(data@, source, target),
        r matches Ok(v) ==> v@ == in_target_format(data@, source, target),
        r matches Err(e) ==> e is Other,
{
    if source == target {
        return Ok(data);
    }
    let converted = match target {
        DownloadFormat::Webp => reencode_as_webp(data.as_slice()),
        DownloadFormat::Jpeg => reencode_as_jpeg(data.as_slice()),
    };
    match converted {
        Ok(v) => Ok(v),
        Err(_) => Err(CopyMangaError::Other(message("could not convert the image"))),
    }
}

/// A downloaded page in the configured encoding: the `content-type` decides
/// the source encoding, and any other type than WebP or JPEG is refused.
pub fn page_in_format(content_type: &str, data: Vec<u8>, target: DownloadFormat)
    -> (r: Result<Vec<u8>, CopyMangaError>)
    ensures
        content_type@ != "image/webp"@ && content_type@ != "image/jpeg"@ ==> r is Err,
        content_type@ == "image/webp"@ ==> (r is Ok <==> converts(data@, DownloadFormat::Webp, target)),
        content_type@ == "image/jpeg"@ ==> (r is Ok <==> converts(data@, DownloadFormat::Jpeg, target)),
        content_type@ == "image/webp"@ ==> (r matches Ok(v) ==> v@ == in_target_format(data@, DownloadFormat::Webp, target)),
        content_type@ == "image/jpeg"@ ==> (r matches Ok(v) ==> v@ == in_target_format(data@, DownloadFormat::Jpeg, target)),
{
    match format_of_content_type(content_type) {
        None => Err(CopyMangaError::Other(message("unexpected image content type"))),
        Some(source) => convert_to_format(data, source, target),
    }
}

/// `s` with every match of `from`, taken left to right without overlap,
/// replaced by `to`.
pub open spec fn replace_all(s: Seq<char>, from: Seq<char>, to: Seq<char>) -> Seq<char>
    decreases s.len(),
{
    if from.len() == 0 || s.len() < from.len() {
        s
    } else if s.take(from.len() as int) == from {
        to + replace_all(s.skip(from.len() as int), from, to)
    } else {
        seq![s[0]] + replace_all(s.drop_first(), from, to)
    }
}

/// Relies on `str::replace`: every non-overlapping match of the pattern,
/// found from the left, is replaced.
#[verifier::external_body]
fn replace_str(s: &str, from: &str, to: &str) -> (r: String)
    requires
        from@.len() > 0,
    ensures
        r@ == replace_all(s@, from@, to@),
{
    s.replace(from, to)
}

/// The marker of the medium resolution in a page URL.
pub const MEDIUM_RESOLUTION: &'static str = ".c800x.";

/// The marker of the large resolution in a page URL.
pub const LARGE_RESOLUTION: &'static str = ".c1500x.";

/// A page to download: its URL and its 0-based page index.
#[derive(Debug, Clone)]
pub struct PageRef {
    pub url: String,
    pub index: i64,
}

/// The pages of a chapter manifest, in order: each URL asks for the large
/// resolution, and each index comes from the parallel `words` list.
pub fn url_and_index_pairs(urls: &Vec<String>, words: &Vec<i64>) -> (r: Vec<PageRef>)
    requires
        words.len() >= urls.len(),
    ensures
        r.len() == urls.len(),
        forall|i: int| 0 <= i < r.len() ==> (#[trigger] r@[i]).url@ == replace_all(urls@[i]@,
            MEDIUM_RESOLUTION@, LARGE_RESOLUTION@) && r@[i].index == words@[i],
{
    proof { reveal_strlit(".c800x."); }
    let mut r: Vec<PageRef> = Vec::new();
    let mut i: usize = 0;
    while i < urls.len()
        invariant
            words.len() >= urls.len(),
            i <= urls.len(),
            r.len() == i,
            MEDIUM_RESOLUTION@.len() > 0,
            forall|j: int| 0 <= j < i ==> (#[trigger] r@[j]).url@ == replace_all(urls@[j]@,
                MEDIUM_RESOLUTION@, LARGE_RESOLUTION@) && r@[j].index == words@[j],
        decreases urls.len() - i,
    {
        let url = replace_str(urls[i].as_str(), MEDIUM_RESOLUTION, LARGE_RESOLUTION);
        r.push(PageRef { url, index: words[i] });
        i += 1;
    }
    r
}

/// One line per message of an error chain: its position, `: `, the message.
pub open spec fn chain_text(messages: Seq<Seq<char>>) -> Seq<char>
    decreases messages.len(),
{
    if messages.len() == 0 {
        Seq::empty()
    } else {
        chain_text(messages.drop_last()) + decimal((messages.len() - 1) as nat) + ": "@
            + messages.last() + seq!['\n']
    }
}

/// Formats an error chain, outermost context first, as numbered lines.
pub fn to_string_chain(messages: &Vec<String>) -> (r: String)
    ensures
        r@ == chain_text(messages@.map_values(|m: String| m@)),
{
    let ghost ms = messages@.map_values(|m: String| m@);
    let mut out: Vec<char> = Vec::new();
    let mut i: usize = 0;
    while i < messages.len()
        invariant
            i <= messages.len(),
            ms == messages@.map_values(|m: String| m@),
            out@ == chain_text(ms.take(i as int)),
        decreases messages.len() - i,
    {
        assert(ms.take(i + 1).drop_last() =~= ms.take(i as int));
        push_decimal(i as u64, &mut out);
        push_str(&mut out, ": ");
        push_str(&mut out, messages[i].as_str());
        out.push('\n');
        i += 1;
    }
    assert(ms.take(messages.len() as int) =~= ms);
    string_of(&out)
}

/// An error as the command surface reports it: a title and the full chain.
#[derive(Debug, Clone)]
pub struct CommandError {
    pub err_title: String,
    pub err_message: String,
}

impl CommandError {
    /// The report for an error whose chain of messages is `messages`.
    pub fn from(err_title: &str, messages: &Vec<String>) -> (r: CommandError)
        ensures
            r.err_title@ == err_title@,
            r.err_message@ == chain_text(messages@.map_values(|m: String| m@)),
    {
        CommandError { err_title: String::from_str(err_title), err_message: to_string_chain(messages) }
    }
}

} // verus!
