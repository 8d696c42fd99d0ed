//! Calls into outside crates and into parts of std that vstd leaves
//! unspecified. Every item here is trusted: its contract states what the
//! called function does, as its source or documentation shows it.
use vstd::prelude::*;
use vstd::utf8::{decode_utf8, valid_utf8};

verus! {

/// Whether `regex::Regex::new` accepts the pattern.
pub uninterp spec fn regex_accepts(pattern: Seq<char>) -> bool;

/// The text that `regex::Regex::replace_all` produces for the pattern, the
/// input text and the replacement (which may name capture groups).
pub uninterp spec fn regex_replace_all(pattern: Seq<char>, text: Seq<char>, rep: Seq<char>) -> Seq<char>;

/// Relies on `regex::Regex::new` (does the pattern compile) and on
/// `regex::Regex::replace_all` (every non-overlapping match replaced).
#[verifier::external_body]
pub(crate) fn replace_all(pattern: &str, text: &str, rep: &str) -> (r: Option<String>)
    ensures
        r.is_some() == regex_accepts(pattern@),
        r matches Some(s) ==> s@ == regex_replace_all(pattern@, text@, rep@),
{
    match regex::Regex::new(pattern) {
        Ok(re) => Some(re.replace_all(text, rep).to_string()),
        Err(_) => None,
    }
}

/// The name that `HeaderName::from_bytes` makes of the text (it lowers the
/// case), or `None` where it refuses the text.
pub uninterp spec fn header_name_of(s: Seq<char>) -> Option<Seq<char>>;

/// Relies on `http::HeaderName::from_bytes`, as hyper re-exports it: the
/// normalized name, or `None` for an invalid one.
#[verifier::external_body]
pub(crate) fn parse_header_name(s: &str) -> (r: Option<String>)
    ensures
        r matches Some(n) ==> header_name_of(s@) == Some(n@),
        r is None ==> header_name_of(s@) is None,
{
    hudsucker::hyper::header::HeaderName::from_bytes(s.as_bytes()).ok().map(|n| n.as_str().to_string())
}

/// The characters that `HeaderValue::from_str` accepts: tab, and anything
/// from space up but DEL. (A character past ASCII encodes to bytes of 0x80
/// and above, which it accepts too.)
pub open spec fn value_char_allowed(c: char) -> bool {
    (c as u32 >= 32 && c as u32 != 127) || c == '\t'
}

pub open spec fn value_text_allowed(s: Seq<char>) -> bool {
    forall|i: int| 0 <= i < s.len() ==> value_char_allowed(#[trigger] s[i])
}

/// Relies on `http::HeaderValue::from_str`: it succeeds exactly when every
/// byte is a tab or at least 32 and not 127.
#[verifier::external_body]
pub(crate) fn header_value_valid(s: &str) -> (r: bool)
    ensures
        r == value_text_allowed(s@),
{
    hudsucker::hyper::header::HeaderValue::from_str(s).is_ok()
}

/// Relies on `String::from_utf8`: the decoded text exactly when the bytes
/// are valid UTF-8.
#[verifier::external_body]
pub(crate) fn decode_utf8_text(bytes: &Vec<u8>) -> (r: Option<String>)
    ensures
        r.is_some() == valid_utf8(bytes@),
        r matches Some(s) ==> s@ == decode_utf8(bytes@),
{
    String::from_utf8(bytes.clone()).ok()
}

/// The text of the URI that `http::Uri`'s parser makes of the text, as its
/// `Display` writes it back, or `None` where the parser refuses the text.
pub uninterp spec fn uri_text(s: Seq<char>) -> Option<Seq<char>>;

/// Relies on `http::Uri::from_str` (as hyper re-exports it) and on the
/// URI's `Display`.
#[verifier::external_body]
pub(crate) fn parse_uri(s: &str) -> (r: Option<String>)
    ensures
        r matches Some(u) ==> uri_text(s@) == Some(u@),
        r is None ==> uri_text(s@) is None,
{
    s.parse::<hudsucker::hyper::Uri>().ok().map(|u| u.to_string())
}

/// Relies on `uuid::Uuid::new_v4` for a fresh random id, written by its
/// `Display` in the hyphenated form of 36 characters.
#[verifier::external_body]
pub(crate) fn new_exchange_id() -> (r: String)
    ensures
        r@.len() == 36,
{
    uuid::Uuid::new_v4().to_string()
}

/// Relies on `chrono::Utc::now` and `DateTime::timestamp_millis`: the
/// current time in milliseconds since the Unix epoch.
#[verifier::external_body]
pub(crate) fn now_millis() -> (r: i64) {
    chrono::Utc::now().timestamp_millis()
}

/// Relies on `serde_json::to_string` over a `HashMap` of the pairs (a later
/// pair wins over an earlier one of the same name); an encoding failure gives
/// the empty string. The order of the keys is the map's, so nothing more is
/// stated.
#[verifier::external_body]
pub(crate) fn headers_json(pairs: &Vec<(String, String)>) -> (r: String) {
    let map: std::collections::HashMap<String, String> = pairs.iter().cloned().collect();
    serde_json::to_string(&map).unwrap_or_default()
}

#[verifier::external_type_specification]
#[verifier::external_body]
pub struct ExRcgenError(rcgen::Error);

/// Relies on rcgen: `KeyPair::generate` for a fresh random key pair, and
/// `CertificateParams::self_signed` for a certificate over it naming the two
/// subject fields, with the CA constraint of the given path length; both
/// written as PEM (certificate first). The material is random, so nothing is
/// stated of it.
#[verifier::external_body]
pub(crate) fn generate_authority(
    common_name: &str,
    organization: &str,
    path_len: u8,
) -> (r: Result<(String, String), rcgen::Error>) {
    let mut params = rcgen::CertificateParams::default();
    let mut dn = rcgen::DistinguishedName::new();
    dn.push(rcgen::DnType::CommonName, common_name);
    dn.push(rcgen::DnType::OrganizationName, organization);
    params.distinguished_name = dn;
    params.is_ca = rcgen::IsCa::Ca(rcgen::BasicConstraints::Constrained(path_len));
    let key_pair = rcgen::KeyPair::generate()?;
    let cert = params.self_signed(&key_pair)?;
    Ok((cert.pem(), key_pair.serialize_pem()))
}

} // verus!
