use vstd::prelude::*;
use vstd::string::*;

use super::event::{SiemEvent, SiemEventView};
use crate::text::{decimal_text, push_decimal, str_eq};

verus! {

/// Severity of an event's log record: `INFO` for a success, `ERROR` otherwise.
pub open spec fn severity_text_of(result: Seq<char>) -> Seq<char> {
    if result == "success"@ { "INFO"@ } else { "ERROR"@ }
}

/// The OTLP severity text of an event with result `result`.
pub fn otlp_severity_text(result: &str) -> (severity: &'static str)
    ensures
        severity@ == severity_text_of(result@),
{
    proof {
        reveal_strlit("success");
        reveal_strlit("INFO");
        reveal_strlit("ERROR");
    }
    if str_eq(result, "success") { "INFO" } else { "ERROR" }
}

/// The value of an OTLP log attribute.
pub enum OtlpAttributeValue {
    StringValue(String),
    IntValue(u32),
}

/// Mathematical view of an [`OtlpAttributeValue`].
pub enum OtlpValueView {
    StringValue(Seq<char>),
    IntValue(u32),
}

/// A key and value attached to an OTLP log record.
pub struct OtlpAttribute {
    pub key: &'static str,
    pub value: OtlpAttributeValue,
}

impl View for OtlpAttribute {
    type V = (Seq<char>, OtlpValueView);

    open spec fn view(&self) -> (Seq<char>, OtlpValueView) {
        (self.key@, match self.value {
            OtlpAttributeValue::StringValue(s) => OtlpValueView::StringValue(s@),
            OtlpAttributeValue::IntValue(n) => OtlpValueView::IntValue(n),
        })
    }
}

/// Views of attributes.
pub open spec fn attribute_views(attributes: Seq<OtlpAttribute>) -> Seq<(Seq<char>, OtlpValueView)> {
    attributes.map_values(|a: OtlpAttribute| a@)
}

/// `attributes` followed by a string attribute `key` when `value` is present.
pub open spec fn push_optional_text(
    attributes: Seq<(Seq<char>, OtlpValueView)>,
    key: Seq<char>,
    value: Option<Seq<char>>,
) -> Seq<(Seq<char>, OtlpValueView)> {
    match value {
        Some(text) => attributes.push((key, OtlpValueView::StringValue(text))),
        None => attributes,
    }
}

/// The attributes of an event's log record: its identifiers, type, result and
/// time, then the actor, device and target secret when present, then the key
/// version (as an integer) when present.
pub open spec fn otlp_attributes_of(e: SiemEventView) -> Seq<(Seq<char>, OtlpValueView)> {
    let base = seq![
        ("event.id"@, OtlpValueView::StringValue(e.event_id)),
        ("event.type"@, OtlpValueView::StringValue(e.event_type)),
        ("event.result"@, OtlpValueView::StringValue(e.result)),
        ("event.request_id"@, OtlpValueView::StringValue(e.request_id)),
        ("event.source_event_at"@, OtlpValueView::StringValue(e.source_event_at)),
    ];
    let with_actor = push_optional_text(base, "event.actor_user_id"@, e.actor_user_id);
    let with_device = push_optional_text(with_actor, "event.actor_device_id"@, e.actor_device_id);
    let with_target = push_optional_text(with_device, "event.target_secret_id"@, e.target_secret_id);
    match e.key_version {
        Some(k) => with_target.push(("event.key_version"@, OtlpValueView::IntValue(k))),
        None => with_target,
    }
}

fn text_attribute(key: &'static str, value: &str) -> (attribute: OtlpAttribute)
    ensures
        attribute@ == (key@, OtlpValueView::StringValue(value@)),
{
    OtlpAttribute { key, value: OtlpAttributeValue::StringValue(value.to_string()) }
}

fn push_attribute(attributes: &mut Vec<OtlpAttribute>, attribute: OtlpAttribute)
    ensures
        attribute_views(final(attributes)@) == attribute_views(old(attributes)@).push(attribute@),
{
    let ghost before = attributes@;
    attributes.push(attribute);
    assert(attribute_views(attributes@) =~= attribute_views(before).push(attribute@));
}

fn push_optional_attribute(attributes: &mut Vec<OtlpAttribute>, key: &'static str, value: Option<&str>)
    ensures
        attribute_views(final(attributes)@) == push_optional_text(
            attribute_views(old(attributes)@),
            key@,
            match value {
                Some(v) => Some(v@),
                None => None,
            },
        ),
{
    match value {
        Some(v) => push_attribute(attributes, text_attribute(key, v)),
        None => {},
    }
}

/// The attributes of the log record that carries `event`.
pub fn otlp_event_attributes(event: &SiemEvent) -> (attributes: Vec<OtlpAttribute>)
    ensures
        attribute_views(attributes@) == otlp_attributes_of(event@),
{
    proof {
        reveal_strlit("event.id");
        reveal_strlit("event.type");
        reveal_strlit("event.result");
        reveal_strlit("event.request_id");
        reveal_strlit("event.source_event_at");
        reveal_strlit("event.actor_user_id");
        reveal_strlit("event.actor_device_id");
        reveal_strlit("event.target_secret_id");
        reveal_strlit("event.key_version");
    }
    let mut attributes: Vec<OtlpAttribute> = Vec::new();
    push_attribute(&mut attributes, text_attribute("event.id", event.event_id()));
    push_attribute(&mut attributes, text_attribute("event.type", event.event_type()));
    push_attribute(&mut attributes, text_attribute("event.result", event.result()));
    push_attribute(&mut attributes, text_attribute("event.request_id", event.request_id()));
    push_attribute(&mut attributes, text_attribute("event.source_event_at", event.source_event_at()));
    let ghost e = event@;
    let ghost base = attribute_views(attributes@);
    assert(base =~= seq![
        ("event.id"@, OtlpValueView::StringValue(e.event_id)),
        ("event.type"@, OtlpValueView::StringValue(e.event_type)),
        ("event.result"@, OtlpValueView::StringValue(e.result)),
        ("event.request_id"@, OtlpValueView::StringValue(e.request_id)),
        ("event.source_event_at"@, OtlpValueView::StringValue(e.source_event_at)),
    ]);
    let actor = event.actor_user_id();
    let device = event.actor_device_id();
    let target = event.target_secret_id();
    assert(match actor { Some(v) => Some(v@), None => None::<Seq<char>> } == e.actor_user_id);
    assert(match device { Some(v) => Some(v@), None => None::<Seq<char>> } == e.actor_device_id);
    assert(match target { Some(v) => Some(v@), None => None::<Seq<char>> } == e.target_secret_id);
    push_optional_attribute(&mut attributes, "event.actor_user_id", actor);
    push_optional_attribute(&mut attributes, "event.actor_device_id", device);
    push_optional_attribute(&mut attributes, "event.target_secret_id", target);
    match event.key_version() {
        Some(k) => push_attribute(
            &mut attributes,
            OtlpAttribute { key: "event.key_version", value: OtlpAttributeValue::IntValue(k) },
        ),
        None => {},
    }
    attributes
}

/// The instant written by an RFC 3339 text, as whole seconds since the Unix
/// epoch and the nanoseconds within the second, or `None` when the text is
/// not RFC 3339. Parsing is left to the `time` crate.
pub uninterp spec fn rfc3339_instant(text: Seq<char>) -> Option<(i64, u32)>;

/// Parses RFC 3339 text through `time::OffsetDateTime::parse` with the
/// `Rfc3339` description, then reads `unix_timestamp` and `nanosecond`. The
/// result is named by `rfc3339_instant`; the crate documents that the
/// nanoseconds lie below one billion.
#[verifier::external_body]
pub(crate) fn parse_rfc3339(text: &str) -> (instant: Option<(i64, u32)>)
    ensures
        instant == rfc3339_instant(text@),
        instant matches Some((_, nanos)) ==> nanos < 1_000_000_000,
{
    match time::OffsetDateTime::parse(text, &time::format_description::well_known::Rfc3339) {
        Ok(parsed) => Some((parsed.unix_timestamp(), parsed.nanosecond())),
        Err(_) => None,
    }
}

/// `v` clamped to the range of `i64`.
pub open spec fn clamp_i64(v: int) -> int {
    if v > i64::MAX { i64::MAX as int } else if v < i64::MIN { i64::MIN as int } else { v }
}

/// Decimal text of an integer, with a leading `-` when it is negative.
pub open spec fn signed_decimal_text(v: int) -> Seq<char> {
    if v < 0 { seq!['-'] + decimal_text((-v) as nat) } else { decimal_text(v as nat) }
}

/// Nanoseconds since the Unix epoch of an instant: seconds times one
/// billion, then plus the nanoseconds, each step saturating at the range of
/// `i64`.
pub open spec fn unix_nanos_of(seconds: i64, nanos: u32) -> int {
    clamp_i64(clamp_i64(seconds * 1_000_000_000) + nanos)
}

/// The `timeUnixNano` text of a record: the nanoseconds since the Unix epoch
/// of an RFC 3339 time, or `0` (for the collector to fill in) when the text
/// is not RFC 3339.
pub open spec fn unix_nano_text(value: Seq<char>) -> Seq<char> {
    match rfc3339_instant(value) {
        Some((seconds, nanos)) => signed_decimal_text(unix_nanos_of(seconds, nanos)),
        None => seq!['0'],
    }
}

fn clamp_to_i64(v: i128) -> (clamped: i64)
    ensures
        clamped == clamp_i64(v as int),
{
    if v > 9223372036854775807i128 {
        9223372036854775807i64
    } else if v < -9223372036854775808i128 {
        -9223372036854775808i64
    } else {
        v as i64
    }
}

/// Decimal text of `v`, with a leading `-` when it is negative.
pub fn signed_decimal_string(v: i64) -> (text: String)
    ensures
        text@ == signed_decimal_text(v as int),
{
    proof { reveal_strlit("-"); }
    let mut out = String::new();
    if v < 0 {
        out.append("-");
        let magnitude: u64 = (0i128 - v as i128) as u64;
        push_decimal(&mut out, magnitude);
    } else {
        push_decimal(&mut out, v as u64);
    }
    assert(out@ =~= signed_decimal_text(v as int));
    out
}

/// Converts a record's RFC 3339 time into the `timeUnixNano` text of its OTLP
/// log record.
pub fn source_event_at_to_unix_nano(value: &str) -> (text: String)
    ensures
        text@ == unix_nano_text(value@),
{
    proof { reveal_strlit("0"); }
    match parse_rfc3339(value) {
        Some((seconds, nanos)) => {
            let scaled = clamp_to_i64(seconds as i128 * 1_000_000_000i128);
            let total = clamp_to_i64(scaled as i128 + nanos as i128);
            signed_decimal_string(total)
        },
        None => String::from_str("0"),
    }
}

/// Name of the service that OTLP records come from.
pub open spec fn otlp_service_name() -> Seq<char> {
    "mipsorcu-sbc"@
}

/// Name of the instrumentation scope of OTLP records.
pub fn otlp_scope_name() -> (name: &'static str)
    ensures
        name@ == "mipsorcu.audit"@,
{
    proof { reveal_strlit("mipsorcu.audit"); }
    "mipsorcu.audit"
}

/// Error code of an OTLP post answered with a non-success HTTP status.
pub fn otlp_http_failure_code(status: u16) -> (code: String)
    ensures
        code@ == "siem_otlp_http_"@ + decimal_text(status as nat),
{
    let mut out = String::from_str("siem_otlp_http_");
    push_decimal(&mut out, status as u64);
    out
}

/// Error code of a Splunk HEC post answered with a non-success HTTP status.
pub fn splunk_http_failure_code(status: u16) -> (code: String)
    ensures
        code@ == "siem_splunk_http_"@ + decimal_text(status as nat),
{
    let mut out = String::from_str("siem_splunk_http_");
    push_decimal(&mut out, status as u64);
    out
}

} // verus!
