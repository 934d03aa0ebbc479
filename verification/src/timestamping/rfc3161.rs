use vstd::prelude::*;
use vstd::string::*;

use cms::content_info::ContentInfo;
use cms::signed_data::SignedData;
use der::asn1::{Int, OctetString};
use der::{Decode, Encode};
use x509_tsp::{MessageImprint, TimeStampReq, TimeStampResp, TspVersion, TstInfo};

use super::service::{
    TimestampVerification, TimestampVerificationFailureKind, TimestampingServiceError,
    TimestampingToken, VerifiedTimestamp, token_length_ok,
};
use crate::encoding::{hex_encode, hex_lower};
use crate::ledger::DigestHash;
use crate::text::{bytes_eq, decimal_text, push_decimal, str_eq};

verus! {

/// Basic-auth credentials of a time-stamping authority. The password never
/// appears in logs or output.
#[derive(Clone)]
pub struct TsaCredentials {
    username: String,
    password: String,
}

impl TsaCredentials {
    pub closed spec fn spec_username(&self) -> Seq<char> {
        self.username@
    }

    pub closed spec fn spec_password(&self) -> Seq<char> {
        self.password@
    }

    pub fn new(username: &str, password: String) -> (credentials: Self)
        ensures
            credentials.spec_username() == username@,
            credentials.spec_password() == password@,
    {
        TsaCredentials { username: username.to_string(), password }
    }

    pub fn username(&self) -> (username: &str)
        ensures
            username@ == self.spec_username(),
    {
        self.username.as_str()
    }

    /// The password, for building the request's authorization only.
    pub fn expose_password(&self) -> (password: &str)
        ensures
            password@ == self.spec_password(),
    {
        self.password.as_str()
    }
}


/// Object identifier of SHA3-256, the imprint algorithm of every request.
pub open spec fn sha3_256_oid() -> Seq<char> {
    "2.16.840.1.101.3.4.2.8"@
}

/// Object identifier of CMS signed data, the content type of a time-stamp token.
pub open spec fn id_signed_data() -> Seq<char> {
    "1.2.840.113549.1.7.2"@
}

/// Object identifier of `TSTInfo`, the content type inside the signed data.
pub open spec fn id_ct_tst_info() -> Seq<char> {
    "1.2.840.113549.1.9.16.1.4"@
}

/// Byte length of a request nonce.
pub const NONCE_LENGTH: usize = 16;

/// The first nonce byte made to lie in `0x01..=0x7f`, so that the nonce is a
/// positive DER integer in minimal form.
pub open spec fn normalized_first_byte(b: u8) -> u8 {
    ((b & 0x7f) | 0x01) as u8
}

/// Fills a nonce from the operating system's random source through
/// `getrandom::fill`; `None` when the source failed. The bytes are random,
/// so nothing is claimed of them.
#[verifier::external_body]
fn random_nonce_bytes() -> (nonce: Option<[u8; 16]>) {
    let mut bytes = [0u8; 16];
    match getrandom::fill(&mut bytes) {
        Ok(()) => Some(bytes),
        Err(_) => None,
    }
}

/// The nonce sent for drawn bytes: the bytes with the first made to lie in
/// `0x01..=0x7f`.
pub open spec fn normalized_nonce(bytes: Seq<u8>) -> Seq<u8> {
    bytes.update(0, normalized_first_byte(bytes[0]))
}

/// Makes drawn bytes a nonce: the top bit of the first byte is cleared and
/// its lowest bit set, so the nonce is a positive DER integer in minimal form.
pub fn normalize_nonce(bytes: [u8; 16]) -> (nonce: [u8; 16])
    ensures
        nonce@ == normalized_nonce(bytes@),
        1 <= nonce@[0] <= 0x7f,
{
    let mut out = bytes;
    let first = out[0];
    let normalized: u8 = (first & 0x7f) | 0x01;
    assert(1 <= ((first & 0x7f) | 0x01) <= 0x7f) by (bit_vector);
    out[0] = normalized;
    assert(out@ =~= normalized_nonce(bytes@));
    out
}

/// A fresh request nonce: sixteen bytes drawn from the operating system's
/// random source, normalized by [`normalize_nonce`]; an error with code
/// `rfc3161_nonce_csprng_failed` when the source fails. Which bytes are
/// drawn is the source's.
pub fn make_nonce() -> (nonce: Result<[u8; 16], TimestampingServiceError>)
    ensures
        nonce matches Err(e) ==> (e matches TimestampingServiceError::BackendFailed { code } && code@
            == "rfc3161_nonce_csprng_failed"@),
        nonce matches Ok(n) ==> exists|drawn: [u8; 16]| n@ == normalized_nonce(drawn@),
        nonce matches Ok(n) ==> 1 <= n@[0] <= 0x7f,
{
    let bytes = match random_nonce_bytes() {
        Some(b) => b,
        None => {
            return Err(
                TimestampingServiceError::BackendFailed { code: "rfc3161_nonce_csprng_failed".to_string() },
            );
        },
    };
    let nonce = normalize_nonce(bytes);
    assert(nonce@ == normalized_nonce(bytes@));
    Ok(nonce)
}

/// Why building a request failed.
#[derive(Debug, Clone, Copy, PartialEq, Eq, Structural)]
pub enum RequestBuildFailure {
    Imprint,
    Policy,
    Nonce,
    Encode,
}

/// The DER of the RFC 3161 `TimeStampReq` (version `v1`, no extensions) with
/// imprint algorithm `oid` over `hash`, policy `policy`, nonce `nonce` and
/// certificate request flag `cert_req`, as `x509-tsp` and `der` encode it,
/// or the step that failed.
pub uninterp spec fn time_stamp_request_der(
    oid: Seq<char>,
    hash: Seq<u8>,
    policy: Option<Seq<char>>,
    nonce: Option<Seq<u8>>,
    cert_req: bool,
) -> Result<Seq<u8>, RequestBuildFailure>;

pub open spec fn request_view(r: Result<Vec<u8>, RequestBuildFailure>) -> Result<Seq<u8>, RequestBuildFailure> {
    match r {
        Ok(v) => Ok(v@),
        Err(e) => Err(e),
    }
}

pub open spec fn opt_str_view(s: Option<&str>) -> Option<Seq<char>> {
    match s {
        Some(t) => Some(t@),
        None => None,
    }
}

pub open spec fn opt_bytes_view(b: Option<&[u8]>) -> Option<Seq<u8>> {
    match b {
        Some(t) => Some(t@),
        None => None,
    }
}

/// Builds `x509_tsp::TimeStampReq` from the given fields and encodes it with
/// `der::Encode::to_der`: the algorithm and policy through
/// `ObjectIdentifier::new`, the imprint through `OctetString::new`, the nonce
/// through `Int::new`. `TspVersion::V1` is the only version the crate has,
/// and no extensions are sent. The result is named by `time_stamp_request_der`.
#[verifier::external_body]
fn encode_time_stamp_request(
    oid: &str,
    hash: &[u8],
    policy: Option<&str>,
    nonce: Option<&[u8]>,
    cert_req: bool,
) -> (der_bytes: Result<Vec<u8>, RequestBuildFailure>)
    ensures
        request_view(der_bytes) == time_stamp_request_der(oid@, hash@, opt_str_view(policy), opt_bytes_view(nonce), cert_req),
        policy is None ==> !(der_bytes matches Err(RequestBuildFailure::Policy)),
{
    let oid = der::oid::ObjectIdentifier::new(oid).map_err(|_| RequestBuildFailure::Imprint)?;
    let hashed_message = OctetString::new(hash.to_vec()).map_err(|_| RequestBuildFailure::Imprint)?;
    let hash_algorithm = spki::AlgorithmIdentifier::<der::Any> { oid, parameters: None };
    let req_policy = policy.map(der::oid::ObjectIdentifier::new).transpose().map_err(|_| RequestBuildFailure::Policy)?;
    let nonce = nonce.map(Int::new).transpose().map_err(|_| RequestBuildFailure::Nonce)?;
    let request = TimeStampReq {
        version: TspVersion::V1,
        message_imprint: MessageImprint { hash_algorithm, hashed_message },
        req_policy,
        nonce,
        cert_req,
        extensions: None,
    };
    request.to_der().map_err(|_| RequestBuildFailure::Encode)
}

/// The DER of the request for a digest hash and nonce; a failed step is an
/// invalid response with its own reason.
pub fn build_timestamp_request(digest_hash: &DigestHash, nonce: &[u8]) -> (request: Result<
    Vec<u8>,
    TimestampingServiceError,
>)
    ensures
        !(time_stamp_request_der(sha3_256_oid(), digest_hash@, None, Some(nonce@), true) matches Err(
            RequestBuildFailure::Policy,
        )),
        match time_stamp_request_der(sha3_256_oid(), digest_hash@, None, Some(nonce@), true) {
            Ok(der_bytes) => request matches Ok(r) && r@ == der_bytes,
            Err(RequestBuildFailure::Imprint) => request matches Err(
                TimestampingServiceError::InvalidResponse { reason },
            ) && reason@ == "failed to build message imprint octet string"@,
            Err(RequestBuildFailure::Policy) => true,
            Err(RequestBuildFailure::Nonce) => request matches Err(
                TimestampingServiceError::InvalidResponse { reason },
            ) && reason@ == "failed to build nonce integer"@,
            Err(RequestBuildFailure::Encode) => request matches Err(
                TimestampingServiceError::InvalidResponse { reason },
            ) && reason@ == "failed to DER-encode TimeStampReq"@,
        },
{
    match encode_time_stamp_request(
        "2.16.840.1.101.3.4.2.8",
        digest_hash.as_bytes().as_slice(),
        None,
        Some(nonce),
        true,
    ) {
        Ok(der_bytes) => Ok(der_bytes),
        Err(RequestBuildFailure::Imprint) => Err(
            TimestampingServiceError::InvalidResponse { reason: "failed to build message imprint octet string" },
        ),
        Err(RequestBuildFailure::Policy) => {
            proof { assert(false); }
            Err(TimestampingServiceError::InvalidResponse { reason: "failed to DER-encode TimeStampReq" })
        },
        Err(RequestBuildFailure::Nonce) => Err(
            TimestampingServiceError::InvalidResponse { reason: "failed to build nonce integer" },
        ),
        Err(RequestBuildFailure::Encode) => Err(
            TimestampingServiceError::InvalidResponse { reason: "failed to DER-encode TimeStampReq" },
        ),
    }
}

/// The PKI status number (RFC 4210) and the DER of the time-stamp token of
/// a DER `TimeStampResp`, or `None` when the bytes are not one.
pub uninterp spec fn time_stamp_resp_fields(der_bytes: Seq<u8>) -> Option<(u8, Option<Seq<u8>>)>;

pub open spec fn resp_view(r: Option<(u8, Option<Vec<u8>>)>) -> Option<(u8, Option<Seq<u8>>)> {
    match r {
        None => None,
        Some((status, None)) => Some((status, None)),
        Some((status, Some(token))) => Some((status, Some(token@))),
    }
}

/// Decodes a response through `TimeStampResp::from_der`; the token is
/// handed on as its DER (`Encode::to_der`). Named by `time_stamp_resp_fields`.
#[verifier::external_body]
fn decode_time_stamp_resp(der_bytes: &[u8]) -> (fields: Option<(u8, Option<Vec<u8>>)>)
    ensures
        resp_view(fields) == time_stamp_resp_fields(der_bytes@),
{
    let response = TimeStampResp::from_der(der_bytes).ok()?;
    let status = response.status.status as u8;
    match response.time_stamp_token {
        None => Some((status, None)),
        Some(token) => Some((status, Some(token.to_der().ok()?))),
    }
}

/// The content type (dotted object identifier) and the DER of the content
/// of a DER CMS `ContentInfo`, or `None`.
pub uninterp spec fn content_info_fields(der_bytes: Seq<u8>) -> Option<(Seq<char>, Seq<u8>)>;

/// Decodes through `cms::content_info::ContentInfo::from_der`. Named by
/// `content_info_fields`.
#[verifier::external_body]
fn decode_content_info(der_bytes: &[u8]) -> (fields: Option<(String, Vec<u8>)>)
    ensures
        match fields {
            None => content_info_fields(der_bytes@) is None,
            Some((oid, content)) => content_info_fields(der_bytes@) == Some((oid@, content@)),
        },
{
    let info = ContentInfo::from_der(der_bytes).ok()?;
    Some((info.content_type.to_string(), info.content.to_der().ok()?))
}

/// The encapsulated content type and the DER of the encapsulated content
/// (when present) of a DER CMS `SignedData`, or `None`.
pub uninterp spec fn signed_data_fields(der_bytes: Seq<u8>) -> Option<(Seq<char>, Option<Seq<u8>>)>;

/// Decodes through `cms::signed_data::SignedData::from_der`. Named by
/// `signed_data_fields`.
#[verifier::external_body]
fn decode_signed_data(der_bytes: &[u8]) -> (fields: Option<(String, Option<Vec<u8>>)>)
    ensures
        match fields {
            None => signed_data_fields(der_bytes@) is None,
            Some((oid, None)) => signed_data_fields(der_bytes@) == Some((oid@, None::<Seq<u8>>)),
            Some((oid, Some(content))) => signed_data_fields(der_bytes@) == Some((oid@, Some(content@))),
        },
{
    let signed = SignedData::from_der(der_bytes).ok()?;
    let econtent_type = signed.encap_content_info.econtent_type.to_string();
    match signed.encap_content_info.econtent {
        None => Some((econtent_type, None)),
        Some(content) => Some((econtent_type, Some(content.to_der().ok()?))),
    }
}

/// The bytes of a DER OCTET STRING, or `None`.
pub uninterp spec fn octet_string_bytes(der_bytes: Seq<u8>) -> Option<Seq<u8>>;

/// Decodes through `der::asn1::OctetString::from_der`. Named by `octet_string_bytes`.
#[verifier::external_body]
fn decode_octet_string(der_bytes: &[u8]) -> (bytes: Option<Vec<u8>>)
    ensures
        match bytes {
            None => octet_string_bytes(der_bytes@) is None,
            Some(b) => octet_string_bytes(der_bytes@) == Some(b@),
        },
{
    OctetString::from_der(der_bytes).ok().map(OctetString::into_bytes)
}

/// What the checks read of a `TSTInfo`.
#[derive(Debug, Clone, PartialEq, Eq)]
pub struct TstFields {
    /// Imprint algorithm, dotted object identifier.
    pub imprint_oid: String,
    pub imprint_hash: Vec<u8>,
    /// The nonce's integer bytes, when the token carries one.
    pub nonce: Option<Vec<u8>>,
    /// The serial number's integer bytes.
    pub serial: Vec<u8>,
    /// The generation time as `der` displays it.
    pub gen_time: String,
}

pub struct TstView {
    pub imprint_oid: Seq<char>,
    pub imprint_hash: Seq<u8>,
    pub nonce: Option<Seq<u8>>,
    pub serial: Seq<u8>,
    pub gen_time: Seq<char>,
}

pub open spec fn tst_view(f: TstFields) -> TstView {
    TstView {
        imprint_oid: f.imprint_oid@,
        imprint_hash: f.imprint_hash@,
        nonce: match f.nonce {
            Some(n) => Some(n@),
            None => None,
        },
        serial: f.serial@,
        gen_time: f.gen_time@,
    }
}

/// The fields of a DER `TSTInfo`, or `None`.
pub uninterp spec fn tst_info_fields(der_bytes: Seq<u8>) -> Option<TstView>;

/// Decodes through `x509_tsp::TstInfo::from_der`, with the generation time
/// displayed through `GeneralizedTime::to_date_time`. Named by `tst_info_fields`.
#[verifier::external_body]
fn decode_tst_info(der_bytes: &[u8]) -> (fields: Option<TstFields>)
    ensures
        match fields {
            None => tst_info_fields(der_bytes@) is None,
            Some(f) => tst_info_fields(der_bytes@) == Some(tst_view(f)),
        },
{
    let info = TstInfo::from_der(der_bytes).ok()?;
    let nonce = match &info.nonce {
        None => None,
        Some(n) => Some(n.as_bytes().to_vec()),
    };
    Some(TstFields {
        imprint_oid: info.message_imprint.hash_algorithm.oid.to_string(),
        imprint_hash: info.message_imprint.hashed_message.as_bytes().to_vec(),
        nonce,
        serial: info.serial_number.as_bytes().to_vec(),
        gen_time: info.gen_time.to_date_time().to_string(),
    })
}

/// What a granted response yields: the imprint, the nonce, the serial (hex)
/// and the generation time.
#[derive(Debug, Clone, PartialEq, Eq)]
pub struct ParsedTst {
    pub imprint_oid: String,
    pub imprint_hash: Vec<u8>,
    pub nonce: Option<Vec<u8>>,
    pub serial_hex: String,
    pub gen_time: String,
}

/// Outcome of reading a stored or received `TimeStampResp`.
#[derive(Debug, Clone, PartialEq, Eq)]
pub enum ParseOutcome {
    Granted(ParsedTst),
    NotGranted,
    Malformed,
}

pub enum ParseView {
    Granted(TstView),
    NotGranted,
    Malformed,
}

/// Reads a response: the status must be granted (0) or granted with
/// modifications (1); the token must be CMS signed data whose encapsulated
/// content is a `TSTInfo` in an OCTET STRING. The serial is given in hex.
pub open spec fn parse_view(der_bytes: Seq<u8>) -> ParseView {
    match time_stamp_resp_fields(der_bytes) {
        None => ParseView::Malformed,
        Some((status, token)) => if status != 0 && status != 1 {
            ParseView::NotGranted
        } else {
            match token {
                None => ParseView::Malformed,
                Some(t) => match content_info_fields(t) {
                    None => ParseView::Malformed,
                    Some((content_type, content)) => if content_type != id_signed_data() {
                        ParseView::Malformed
                    } else {
                        match signed_data_fields(content) {
                            None => ParseView::Malformed,
                            Some((econtent_type, econtent)) => if econtent_type != id_ct_tst_info() {
                                ParseView::Malformed
                            } else {
                                match econtent {
                                    None => ParseView::Malformed,
                                    Some(e) => match octet_string_bytes(e) {
                                        None => ParseView::Malformed,
                                        Some(octets) => match tst_info_fields(octets) {
                                            None => ParseView::Malformed,
                                            Some(f) => ParseView::Granted(
                                                f,
                                            ),
                                        },
                                    },
                                }
                            },
                        }
                    },
                },
            }
        },
    }
}

pub open spec fn parsed_matches(p: ParsedTst, v: TstView) -> bool {
    &&& p.imprint_oid@ == v.imprint_oid
    &&& p.imprint_hash@ == v.imprint_hash
    &&& match v.nonce {
        Some(n) => p.nonce matches Some(pn) && pn@ == n,
        None => p.nonce is None,
    }
    &&& p.serial_hex@ == hex_lower(v.serial)
    &&& p.gen_time@ == v.gen_time
}

/// Reads a `TimeStampResp` (see `parse_view`).
pub fn parse_timestamp_response(der_bytes: &[u8]) -> (outcome: ParseOutcome)
    ensures
        match parse_view(der_bytes@) {
            ParseView::Malformed => outcome is Malformed,
            ParseView::NotGranted => outcome is NotGranted,
            ParseView::Granted(v) => outcome matches ParseOutcome::Granted(p) && parsed_matches(p, v),
        },
{
    proof {
        reveal_strlit("1.2.840.113549.1.7.2");
        reveal_strlit("1.2.840.113549.1.9.16.1.4");
    }
    let (status, token) = match decode_time_stamp_resp(der_bytes) {
        None => {
            return ParseOutcome::Malformed;
        },
        Some(fields) => fields,
    };
    if status != 0 && status != 1 {
        return ParseOutcome::NotGranted;
    }
    let token = match token {
        None => {
            return ParseOutcome::Malformed;
        },
        Some(t) => t,
    };
    let (content_type, content) = match decode_content_info(token.as_slice()) {
        None => {
            return ParseOutcome::Malformed;
        },
        Some(fields) => fields,
    };
    if !str_eq(content_type.as_str(), "1.2.840.113549.1.7.2") {
        return ParseOutcome::Malformed;
    }
    let (econtent_type, econtent) = match decode_signed_data(content.as_slice()) {
        None => {
            return ParseOutcome::Malformed;
        },
        Some(fields) => fields,
    };
    if !str_eq(econtent_type.as_str(), "1.2.840.113549.1.9.16.1.4") {
        return ParseOutcome::Malformed;
    }
    let econtent = match econtent {
        None => {
            return ParseOutcome::Malformed;
        },
        Some(e) => e,
    };
    let octets = match decode_octet_string(econtent.as_slice()) {
        None => {
            return ParseOutcome::Malformed;
        },
        Some(o) => o,
    };
    let fields = match decode_tst_info(octets.as_slice()) {
        None => {
            return ParseOutcome::Malformed;
        },
        Some(f) => f,
    };
    let serial_hex = hex_encode(fields.serial.as_slice());
    ParseOutcome::Granted(
        ParsedTst {
            imprint_oid: fields.imprint_oid,
            imprint_hash: fields.imprint_hash,
            nonce: fields.nonce,
            serial_hex,
            gen_time: fields.gen_time,
        },
    )
}

/// Whether a granted token's imprint is SHA3-256 of `expected`.
pub open spec fn imprint_matches(v: TstView, expected: Seq<u8>) -> bool {
    v.imprint_oid == sha3_256_oid() && v.imprint_hash == expected
}

/// Verification of a stored token against an expected hash, bounded to the
/// PKI status, the structure and the message imprint (the TSA signature is
/// not checked here).
pub open spec fn verification_of(der_bytes: Seq<u8>, expected: Seq<u8>) -> Option<
    TimestampVerificationFailureKind,
> {
    match parse_view(der_bytes) {
        ParseView::Malformed => Some(TimestampVerificationFailureKind::Malformed),
        ParseView::NotGranted => Some(TimestampVerificationFailureKind::NotGranted),
        ParseView::Granted(v) => if imprint_matches(v, expected) {
            None
        } else {
            Some(TimestampVerificationFailureKind::ImprintMismatch)
        },
    }
}

/// The metadata of a valid verification: the token's serial in hex and its time.
pub open spec fn valid_meta(meta: VerifiedTimestamp, view: ParseView) -> bool {
    match view {
        ParseView::Granted(v) => meta.tsa_serial_hex@ == hex_lower(v.serial) && (meta.gen_time matches Some(g)
            && g@ == v.gen_time),
        _ => false,
    }
}

fn imprint_ok(parsed: &ParsedTst, expected: &DigestHash) -> (ok: bool)
    ensures
        ok == (parsed.imprint_oid@ == sha3_256_oid() && parsed.imprint_hash@ == expected@),
{
    proof {
        reveal_strlit("2.16.840.1.101.3.4.2.8");
    }
    str_eq(parsed.imprint_oid.as_str(), "2.16.840.1.101.3.4.2.8") && bytes_eq(
        parsed.imprint_hash.as_slice(),
        expected.as_bytes().as_slice(),
    )
}

/// Law: a stored token verifies only when it is a granted token whose
/// imprint is SHA3-256 over exactly the expected hash; a granted token whose
/// imprint hashes anything else is an imprint mismatch.
pub proof fn lemma_verification_requires_matching_imprint(der_bytes: Seq<u8>, expected: Seq<u8>)
    ensures
        verification_of(der_bytes, expected) is None ==> (parse_view(der_bytes) matches ParseView::Granted(v)
            && v.imprint_hash == expected && v.imprint_oid == sha3_256_oid()),
        (parse_view(der_bytes) matches ParseView::Granted(v) && v.imprint_hash != expected) ==> verification_of(
            der_bytes,
            expected,
        ) == Some(TimestampVerificationFailureKind::ImprintMismatch),
{
}

/// Verifies a stored token against the expected digest hash (offline).
pub fn verify_token_against_hash(token: &TimestampingToken, expected_hash: &DigestHash) -> (verification: TimestampVerification)
    ensures
        match verification_of(token@, expected_hash@) {
            Some(kind) => verification == (TimestampVerification::Invalid { failure_kind: kind }),
            None => verification matches TimestampVerification::Valid(meta) && valid_meta(meta, parse_view(token@)),
        },
        verification is Valid ==> (parse_view(token@) matches ParseView::Granted(v) && v.imprint_hash
            == expected_hash@ && v.imprint_oid == sha3_256_oid()),
        (parse_view(token@) matches ParseView::Granted(v) && v.imprint_hash != expected_hash@) ==> verification
            == (TimestampVerification::Invalid { failure_kind: TimestampVerificationFailureKind::ImprintMismatch }),
{
    match parse_timestamp_response(token.as_bytes()) {
        ParseOutcome::NotGranted => TimestampVerification::Invalid {
            failure_kind: TimestampVerificationFailureKind::NotGranted,
        },
        ParseOutcome::Malformed => TimestampVerification::Invalid {
            failure_kind: TimestampVerificationFailureKind::Malformed,
        },
        ParseOutcome::Granted(parsed) => {
            if !imprint_ok(&parsed, expected_hash) {
                return TimestampVerification::Invalid {
                    failure_kind: TimestampVerificationFailureKind::ImprintMismatch,
                };
            }
            TimestampVerification::Valid(
                VerifiedTimestamp { tsa_serial_hex: parsed.serial_hex, gen_time: Some(parsed.gen_time) },
            )
        },
    }
}

/// Checks a received response right after the request (status, imprint and
/// nonce echo) and keeps it as the token.
pub fn accept_response(response_bytes: Vec<u8>, digest_hash: &DigestHash, nonce: &[u8]) -> (token: Result<
    TimestampingToken,
    TimestampingServiceError,
>)
    ensures
        match parse_view(response_bytes@) {
            ParseView::NotGranted => token matches Err(TimestampingServiceError::BackendFailed { code })
                && code@ == "rfc3161_status_not_granted"@,
            ParseView::Malformed => token matches Err(TimestampingServiceError::InvalidResponse { reason })
                && reason@ == "TSA response is not a well-formed RFC 3161 token"@,
            ParseView::Granted(v) => if !imprint_matches(v, digest_hash@) {
                token matches Err(TimestampingServiceError::InvalidResponse { reason }) && reason@
                    == "TSA imprint does not match the requested digest hash"@
            } else if v.nonce != Some(nonce@) {
                token matches Err(TimestampingServiceError::InvalidResponse { reason }) && reason@
                    == "TSA response nonce is missing or does not match the request"@
            } else if !token_length_ok(response_bytes@.len() as int) {
                token is Err
            } else {
                token matches Ok(t) && t@ == response_bytes@
            },
        },
{
    let parsed = match parse_timestamp_response(response_bytes.as_slice()) {
        ParseOutcome::Granted(parsed) => parsed,
        ParseOutcome::NotGranted => {
            return Err(
                TimestampingServiceError::BackendFailed { code: "rfc3161_status_not_granted".to_string() },
            );
        },
        ParseOutcome::Malformed => {
            return Err(
                TimestampingServiceError::InvalidResponse {
                    reason: "TSA response is not a well-formed RFC 3161 token",
                },
            );
        },
    };
    if !imprint_ok(&parsed, digest_hash) {
        return Err(
            TimestampingServiceError::InvalidResponse {
                reason: "TSA imprint does not match the requested digest hash",
            },
        );
    }
    let echoed = match &parsed.nonce {
        Some(n) => bytes_eq(n.as_slice(), nonce),
        None => false,
    };
    if !echoed {
        return Err(
            TimestampingServiceError::InvalidResponse {
                reason: "TSA response nonce is missing or does not match the request",
            },
        );
    }
    TimestampingToken::new(response_bytes)
}

/// A token accepted right after its request verifies against the same hash
/// later on: acceptance checks everything verification checks.
pub proof fn lemma_accepted_token_verifies(der_bytes: Seq<u8>, expected: Seq<u8>, nonce: Seq<u8>)
    requires
        parse_view(der_bytes) matches ParseView::Granted(v) && imprint_matches(v, expected) && v.nonce
            == Some(nonce),
    ensures
        verification_of(der_bytes, expected) is None,
{
}

/// Audit code for a failed HTTP exchange with the TSA, from what failed.
pub fn classify_request_error(is_timeout: bool, is_connect: bool, is_body_or_decode: bool) -> (code: String)
    ensures
        code@ == (if is_timeout {
            "rfc3161_request_timeout"@
        } else if is_connect {
            "rfc3161_connect_failed"@
        } else if is_body_or_decode {
            "rfc3161_response_read_failed"@
        } else {
            "rfc3161_request_failed"@
        }),
{
    if is_timeout {
        "rfc3161_request_timeout".to_string()
    } else if is_connect {
        "rfc3161_connect_failed".to_string()
    } else if is_body_or_decode {
        "rfc3161_response_read_failed".to_string()
    } else {
        "rfc3161_request_failed".to_string()
    }
}

/// The error for a TSA answer with a non-success HTTP status.
pub fn http_status_error(status: u16) -> (error: TimestampingServiceError)
    ensures
        error matches TimestampingServiceError::BackendFailed { code } && code@ == "rfc3161_http_status_"@
            + decimal_text(status as nat),
{
    let mut code = String::from_str("rfc3161_http_status_");
    push_decimal(&mut code, status as u64);
    TimestampingServiceError::BackendFailed { code }
}

} // verus!
