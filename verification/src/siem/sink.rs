use vstd::prelude::*;
use vstd::string::*;

use super::dummy::InMemorySiemSink;

verus! {

/// `reqwest::Client`, declared as an opaque type: the HTTP sinks hold one
/// and the library never looks inside.
#[verifier::external_type_specification]
#[verifier::external_body]
pub struct ExReqwestClient(reqwest::Client);

/// Largest number of events that one SIEM submission may carry.
pub const SIEM_MAX_BATCH_SIZE: usize = 100;

/// The kind of SIEM exporter selected at runtime.
#[derive(Debug, Clone, Copy, PartialEq, Eq, Structural, Hash)]
pub enum SiemExporterKind {
    InMemory,
    Otlp,
    SplunkHec,
}

impl SiemExporterKind {
    /// Stable label of the exporter kind, used in logs and audit metadata.
    pub fn as_str(self) -> (label: &'static str)
        ensures
            label@ == match self {
                SiemExporterKind::InMemory => "in_memory"@,
                SiemExporterKind::Otlp => "otlp"@,
                SiemExporterKind::SplunkHec => "splunk_hec"@,
            },
    {
        match self {
            SiemExporterKind::InMemory => "in_memory",
            SiemExporterKind::Otlp => "otlp",
            SiemExporterKind::SplunkHec => "splunk_hec",
        }
    }
}

/// Non-secret receipt stating that a batch reached a SIEM backend.
#[derive(Debug, Clone, Copy, PartialEq, Eq, Structural)]
pub struct ForwardReceipt {
    exporter_kind: SiemExporterKind,
    batch_size: usize,
}

impl ForwardReceipt {
    pub closed spec fn spec_exporter_kind(self) -> SiemExporterKind {
        self.exporter_kind
    }

    pub closed spec fn spec_batch_size(self) -> usize {
        self.batch_size
    }

    pub fn new(exporter_kind: SiemExporterKind, batch_size: usize) -> (receipt: Self)
        ensures
            receipt.spec_exporter_kind() == exporter_kind,
            receipt.spec_batch_size() == batch_size,
    {
        ForwardReceipt { exporter_kind, batch_size }
    }

    pub fn exporter_kind(self) -> (kind: SiemExporterKind)
        ensures
            kind == self.spec_exporter_kind(),
    {
        self.exporter_kind
    }

    pub fn batch_size(self) -> (size: usize)
        ensures
            size == self.spec_batch_size(),
    {
        self.batch_size
    }
}

/// Errors of a SIEM backend.
pub enum SiemSinkError {
    /// The backend's I/O, network or protocol operation failed.
    BackendFailed { code: String },
    /// The backend answered with something unusable (or the batch was refused).
    InvalidResponse { reason: &'static str },
}

impl SiemSinkError {
    /// The human-readable description of the error.
    pub fn to_display_string(&self) -> (text: String)
        ensures
            text@ == match self {
                SiemSinkError::BackendFailed { code } => "siem backend failed: "@ + code@,
                SiemSinkError::InvalidResponse { reason } => "siem invalid response: "@ + reason@,
            },
    {
        match self {
            SiemSinkError::BackendFailed { code } => {
                let mut out = String::from_str("siem backend failed: ");
                out.append(code.as_str());
                out
            },
            SiemSinkError::InvalidResponse { reason } => {
                let mut out = String::from_str("siem invalid response: ");
                out.append(reason);
                out
            },
        }
    }
}

/// Accepts a batch of at most [`SIEM_MAX_BATCH_SIZE`] events.
pub fn validate_batch_size(batch_size: usize) -> (checked: Result<(), SiemSinkError>)
    ensures
        batch_size <= SIEM_MAX_BATCH_SIZE ==> checked is Ok,
        batch_size > SIEM_MAX_BATCH_SIZE ==> (checked matches Err(SiemSinkError::InvalidResponse { reason })
            && reason@ == "siem_batch_size_exceeded"@),
{
    if batch_size <= SIEM_MAX_BATCH_SIZE {
        return Ok(());
    }
    proof { reveal_strlit("siem_batch_size_exceeded"); }
    Err(SiemSinkError::InvalidResponse { reason: "siem_batch_size_exceeded" })
}

/// Exporter to an OTLP/HTTP/JSON `/v1/logs` collector.
pub struct OtlpSiemSink {
    pub client: reqwest::Client,
    pub endpoint: String,
    pub auth_token: Option<String>,
    pub service_name: String,
}

impl OtlpSiemSink {
    /// An exporter posting to `endpoint`, with an optional bearer token.
    pub fn new(client: reqwest::Client, endpoint: String, auth_token: Option<String>) -> (sink: Self)
        ensures
            sink.endpoint@ == endpoint@,
            crate::siem::event::opt_text(sink.auth_token) == crate::siem::event::opt_text(auth_token),
            sink.service_name@ == "mipsorcu-sbc"@,
    {
        OtlpSiemSink { client, endpoint, auth_token, service_name: String::from_str("mipsorcu-sbc") }
    }
}

/// Exporter to a Splunk HTTP Event Collector.
pub struct SplunkHecSiemSink {
    pub client: reqwest::Client,
    pub endpoint: String,
    pub token: String,
    pub source: String,
    pub sourcetype: String,
    pub host: String,
}

impl SplunkHecSiemSink {
    /// An exporter posting to the collector at `endpoint` with `token`.
    pub fn new(client: reqwest::Client, endpoint: String, token: String) -> (sink: Self)
        ensures
            sink.endpoint@ == endpoint@,
            sink.token@ == token@,
            sink.source@ == "mipsorcu/sbc"@,
            sink.sourcetype@ == "mipsorcu:audit"@,
            sink.host@ == "mipsorcu"@,
    {
        SplunkHecSiemSink {
            client,
            endpoint,
            token,
            source: String::from_str("mipsorcu/sbc"),
            sourcetype: String::from_str("mipsorcu:audit"),
            host: String::from_str("mipsorcu"),
        }
    }
}

/// The SIEM exporter selected at runtime.
pub enum AnySiemSink {
    InMemory(InMemorySiemSink),
    Otlp(OtlpSiemSink),
    SplunkHec(SplunkHecSiemSink),
}

impl AnySiemSink {
    /// The kind of exporter this is.
    pub fn exporter_kind(&self) -> (kind: SiemExporterKind)
        ensures
            kind == match self {
                AnySiemSink::InMemory(_) => SiemExporterKind::InMemory,
                AnySiemSink::Otlp(_) => SiemExporterKind::Otlp,
                AnySiemSink::SplunkHec(_) => SiemExporterKind::SplunkHec,
            },
    {
        match self {
            AnySiemSink::InMemory(_) => SiemExporterKind::InMemory,
            AnySiemSink::Otlp(_) => SiemExporterKind::Otlp,
            AnySiemSink::SplunkHec(_) => SiemExporterKind::SplunkHec,
        }
    }

    /// Label of the exporter route, used in logs and audit metadata.
    pub fn kind_name(&self) -> (name: &'static str)
        ensures
            name@ == match self {
                AnySiemSink::InMemory(_) => "in_memory"@,
                AnySiemSink::Otlp(_) => "otlp"@,
                AnySiemSink::SplunkHec(_) => "splunk_hec"@,
            },
    {
        self.exporter_kind().as_str()
    }
}

} // verus!
