//! The documents that answer requests: a link to the artifact, the artifact
//! embedded in base64, retrieval headers, and the health report.
use crate::convert::{
    artifact_name_of, bare_name, is_bare_name, lemma_bare_artifact_name, store_path,
};
use crate::errors::{ApiError, ValidationKind};
use crate::options::ResponseKind;
use base64::Engine;
use vstd::prelude::*;

verus! {

/// The answer that points at a stored artifact.
#[derive(Clone, Debug)]
pub struct WebpResponse {
    pub success: bool,
    pub response_type: String,
    pub file_id: String,
    pub filename: String,
    pub url: String,
    pub full_url: String,
    pub timestamp: String,
}

/// The answer that carries the artifact inline.
#[derive(Clone, Debug)]
pub struct Base64Response {
    pub success: bool,
    pub response_type: String,
    pub data: String,
    pub format: String,
    pub filename: String,
    pub timestamp: String,
}

/// The answer to a successful conversion.
#[derive(Clone, Debug)]
pub enum ConvertResponse {
    Link(WebpResponse),
    Embedded(Base64Response),
}

/// The service's health report.
#[derive(Clone, Debug)]
pub struct HealthResponse {
    pub status: String,
    pub timestamp: String,
    pub service: String,
    pub version: String,
}

/// Standard base64 (with padding) of `b`.
pub uninterp spec fn base64_of(b: Seq<u8>) -> Seq<char>;

/// Relies on `base64::Engine::encode` with the standard alphabet and
/// padding: four characters for each started group of three bytes. Its
/// length computation panics on overflow, which the bound rules out.
#[verifier::external_body]
fn encode_base64(b: &[u8]) -> (r: String)
    requires
        b@.len() / 3 * 4 + 4 <= usize::MAX,
    ensures
        r@ == base64_of(b@),
        r@.len() == (b@.len() + 2) / 3 * 4,
{
    base64::engine::general_purpose::STANDARD.encode(b)
}

/// The retrieval path of the artifact `name`.
pub open spec fn image_url(name: Seq<char>) -> Seq<char> {
    "/api/images/"@ + name
}

/// The answer that points at the artifact `name`: its retrieval path, and
/// that path's absolute URL on `host`.
pub fn link_response(name: &str, host: &str, timestamp: String) -> (r: WebpResponse)
    ensures
        r.success,
        r.response_type@ == "webp"@,
        r.file_id@ == name@,
        r.filename@ == name@,
        r.url@ == image_url(name@),
        r.full_url@ == "http://"@ + host@ + image_url(name@),
        r.timestamp == timestamp,
{
    let url = String::from_str("/api/images/").concat(name);
    let full_url = String::from_str("http://").concat(host).concat(url.as_str());
    assert(full_url@ =~= "http://"@ + host@ + image_url(name@));
    WebpResponse {
        success: true,
        response_type: String::from_str("webp"),
        file_id: String::from_str(name),
        filename: String::from_str(name),
        url,
        full_url,
        timestamp,
    }
}

/// The identifier that a retrieval request for `url` asks for: what follows
/// the retrieval prefix.
pub open spec fn identifier_in_url(url: Seq<char>) -> Seq<char> {
    url.subrange("/api/images/"@.len() as int, url.len() as int)
}

/// Converting with a link answer and then retrieving by the answer's URL
/// reads the artifact that the encoder wrote: the URL asks for the
/// artifact's own name, which passes retrieval's check and resolves to the
/// path the encoder was given. Every upload whose filename has no separator
/// is converted this way.
pub proof fn lemma_link_round_trip(filename: Seq<char>, store_dir: Seq<char>)
    ensures
        is_bare_name(filename) ==> is_bare_name(artifact_name_of(filename)),
        identifier_in_url(image_url(artifact_name_of(filename))) == artifact_name_of(filename),
        store_path(store_dir, identifier_in_url(image_url(artifact_name_of(filename))))
            == store_path(store_dir, artifact_name_of(filename)),
{
    if is_bare_name(filename) {
        lemma_bare_artifact_name(filename);
    }
    let name = artifact_name_of(filename);
    assert(identifier_in_url(image_url(name)) =~= name);
}

/// The answer that carries the artifact `name`, whose bytes are
/// `artifact`, base64-encoded.
pub fn base64_response(artifact: &[u8], name: &str, timestamp: String) -> (r: Base64Response)
    requires
        artifact@.len() / 3 * 4 + 4 <= usize::MAX,
    ensures
        r.success,
        r.response_type@ == "base64"@,
        r.data@ == base64_of(artifact@),
        r.format@ == "webp"@,
        r.filename@ == name@,
        r.timestamp == timestamp,
{
    Base64Response {
        success: true,
        response_type: String::from_str("base64"),
        data: encode_base64(artifact),
        format: String::from_str("webp"),
        filename: String::from_str(name),
        timestamp,
    }
}

/// The answer to a conversion that produced the artifact `name`, in the
/// representation `kind`; `artifact` holds the artifact's bytes as read back
/// from the store (only an embedded answer uses them).
pub fn conversion_response(
    kind: ResponseKind,
    name: &str,
    host: &str,
    artifact: &[u8],
    timestamp: String,
) -> (r: ConvertResponse)
    requires
        artifact@.len() / 3 * 4 + 4 <= usize::MAX,
    ensures
        kind == ResponseKind::Link ==> (r matches ConvertResponse::Link(l) && l.file_id@ == name@
            && l.url@ == image_url(name@) && l.full_url@ == "http://"@ + host@ + image_url(name@)
            && l.timestamp == timestamp),
        kind == ResponseKind::Embedded ==> (r matches ConvertResponse::Embedded(e) && e.data@
            == base64_of(artifact@) && e.filename@ == name@ && e.response_type@ == "base64"@
            && e.format@ == "webp"@ && e.timestamp == timestamp),
{
    match kind {
        ResponseKind::Link => ConvertResponse::Link(link_response(name, host, timestamp)),
        ResponseKind::Embedded => ConvertResponse::Embedded(
            base64_response(artifact, name, timestamp),
        ),
    }
}

/// The content type of every artifact.
pub fn image_content_type() -> (r: String)
    ensures
        r@ == "image/webp"@,
{
    String::from_str("image/webp")
}

/// Checks a retrieval identifier before the store is touched: it must be a
/// bare filename.
pub fn check_identifier(id: &str) -> (r: Result<(), ApiError>)
    ensures
        r is Ok == is_bare_name(id@),
        r is Err ==> r matches Err(ApiError::Validation(ValidationKind::InvalidIdentifier)),
{
    if bare_name(id) {
        Ok(())
    } else {
        Err(ApiError::Validation(ValidationKind::InvalidIdentifier))
    }
}

/// The disposition header of a retrieved artifact: inline, with the
/// identifier as the filename hint.
pub fn content_disposition(id: &str) -> (r: String)
    ensures
        r@ == "inline; filename=\""@ + id@ + "\""@,
{
    String::from_str("inline; filename=\"").concat(id).concat("\"")
}

/// Relies on `chrono::Utc::now` and `DateTime::to_rfc3339`: the time now,
/// in RFC 3339.
#[verifier::external_body]
fn now_rfc3339() -> (r: String) {
    chrono::Utc::now().to_rfc3339()
}

/// The health report stamped `timestamp`.
pub fn health_report(timestamp: String) -> (r: HealthResponse)
    ensures
        r.status@ == "ok"@,
        r.service@ == "cwebp-api"@,
        r.version@ == "1.0.0"@,
        r.timestamp == timestamp,
{
    HealthResponse {
        status: String::from_str("ok"),
        timestamp,
        service: String::from_str("cwebp-api"),
        version: String::from_str("1.0.0"),
    }
}

/// The health report, stamped with the time now.
pub fn health_check() -> (r: HealthResponse)
    ensures
        r.status@ == "ok"@,
        r.service@ == "cwebp-api"@,
        r.version@ == "1.0.0"@,
{
    health_report(now_rfc3339())
}

} // verus!
