use vstd::prelude::*;

verus! {

/// Schema version of SIEM events; raised on incompatible changes.
pub const SIEM_EVENT_SCHEMA_VERSION: u32 = 1;

/// Top-level keys of a serialized SIEM event, in sorted order.
pub const SIEM_EVENT_TOP_LEVEL_KEY_COUNT: usize = 11;

/// Top-level keys of a serialized SIEM event, in sorted order.
pub fn siem_event_top_level_keys() -> (keys: Vec<&'static str>)
    ensures
        keys@.len() == SIEM_EVENT_TOP_LEVEL_KEY_COUNT,
        keys@[0]@ == "actor_device_id"@,
        keys@[1]@ == "actor_user_id"@,
        keys@[2]@ == "event_id"@,
        keys@[3]@ == "event_type"@,
        keys@[4]@ == "key_version"@,
        keys@[5]@ == "metadata"@,
        keys@[6]@ == "request_id"@,
        keys@[7]@ == "result"@,
        keys@[8]@ == "schema_version"@,
        keys@[9]@ == "source_event_at"@,
        keys@[10]@ == "target_secret_id"@,
{
    let keys = vec![
        "actor_device_id",
        "actor_user_id",
        "event_id",
        "event_type",
        "key_version",
        "metadata",
        "request_id",
        "result",
        "schema_version",
        "source_event_at",
        "target_secret_id",
    ];
    keys
}

/// Non-secret event sent to a SIEM.
///
/// It holds only identifiers, labels and the audit metadata; `metadata` is the
/// JSON text of that metadata object.
pub struct SiemEvent {
    schema_version: u32,
    event_id: String,
    event_type: String,
    result: String,
    request_id: String,
    actor_user_id: Option<String>,
    actor_device_id: Option<String>,
    target_secret_id: Option<String>,
    key_version: Option<u32>,
    source_event_at: String,
    metadata: String,
}

/// Mathematical view of a [`SiemEvent`].
pub struct SiemEventView {
    pub schema_version: u32,
    pub event_id: Seq<char>,
    pub event_type: Seq<char>,
    pub result: Seq<char>,
    pub request_id: Seq<char>,
    pub actor_user_id: Option<Seq<char>>,
    pub actor_device_id: Option<Seq<char>>,
    pub target_secret_id: Option<Seq<char>>,
    pub key_version: Option<u32>,
    pub source_event_at: Seq<char>,
    pub metadata: Seq<char>,
}

/// View of an optional string.
pub open spec fn opt_text(s: Option<String>) -> Option<Seq<char>> {
    match s {
        Some(t) => Some(t@),
        None => None,
    }
}

/// Copies an optional string.
pub fn copy_opt_string(s: &Option<String>) -> (copy: Option<String>)
    ensures
        opt_text(copy) == opt_text(*s),
{
    match s {
        Some(t) => Some(t.clone()),
        None => None,
    }
}

impl View for SiemEvent {
    type V = SiemEventView;

    closed spec fn view(&self) -> SiemEventView {
        SiemEventView {
            schema_version: self.schema_version,
            event_id: self.event_id@,
            event_type: self.event_type@,
            result: self.result@,
            request_id: self.request_id@,
            actor_user_id: opt_text(self.actor_user_id),
            actor_device_id: opt_text(self.actor_device_id),
            target_secret_id: opt_text(self.target_secret_id),
            key_version: self.key_version,
            source_event_at: self.source_event_at@,
            metadata: self.metadata@,
        }
    }
}

/// The fields of a new SIEM event.
pub struct SiemEventParts {
    pub event_id: String,
    pub event_type: String,
    pub result: String,
    pub request_id: String,
    pub actor_user_id: Option<String>,
    pub actor_device_id: Option<String>,
    pub target_secret_id: Option<String>,
    pub key_version: Option<u32>,
    pub source_event_at: String,
    pub metadata: String,
}

impl SiemEvent {
    /// An event of the current schema version with the given fields.
    pub fn new(parts: SiemEventParts) -> (event: Self)
        ensures
            event@.schema_version == SIEM_EVENT_SCHEMA_VERSION,
            event@.event_id == parts.event_id@,
            event@.event_type == parts.event_type@,
            event@.result == parts.result@,
            event@.request_id == parts.request_id@,
            event@.actor_user_id == opt_text(parts.actor_user_id),
            event@.actor_device_id == opt_text(parts.actor_device_id),
            event@.target_secret_id == opt_text(parts.target_secret_id),
            event@.key_version == parts.key_version,
            event@.source_event_at == parts.source_event_at@,
            event@.metadata == parts.metadata@,
    {
        SiemEvent {
            schema_version: SIEM_EVENT_SCHEMA_VERSION,
            event_id: parts.event_id,
            event_type: parts.event_type,
            result: parts.result,
            request_id: parts.request_id,
            actor_user_id: parts.actor_user_id,
            actor_device_id: parts.actor_device_id,
            target_secret_id: parts.target_secret_id,
            key_version: parts.key_version,
            source_event_at: parts.source_event_at,
            metadata: parts.metadata,
        }
    }

    /// An event with every field given, the schema version included (as read back from storage).
    pub fn from_fields(schema_version: u32, parts: SiemEventParts) -> (event: Self)
        ensures
            event@.schema_version == schema_version,
            event@.event_id == parts.event_id@,
            event@.event_type == parts.event_type@,
            event@.result == parts.result@,
            event@.request_id == parts.request_id@,
            event@.actor_user_id == opt_text(parts.actor_user_id),
            event@.actor_device_id == opt_text(parts.actor_device_id),
            event@.target_secret_id == opt_text(parts.target_secret_id),
            event@.key_version == parts.key_version,
            event@.source_event_at == parts.source_event_at@,
            event@.metadata == parts.metadata@,
    {
        SiemEvent {
            schema_version,
            event_id: parts.event_id,
            event_type: parts.event_type,
            result: parts.result,
            request_id: parts.request_id,
            actor_user_id: parts.actor_user_id,
            actor_device_id: parts.actor_device_id,
            target_secret_id: parts.target_secret_id,
            key_version: parts.key_version,
            source_event_at: parts.source_event_at,
            metadata: parts.metadata,
        }
    }

    /// A copy of the event.
    pub fn copy(&self) -> (copy: Self)
        ensures
            copy@ == self@,
    {
        SiemEvent {
            schema_version: self.schema_version,
            event_id: self.event_id.clone(),
            event_type: self.event_type.clone(),
            result: self.result.clone(),
            request_id: self.request_id.clone(),
            actor_user_id: copy_opt_string(&self.actor_user_id),
            actor_device_id: copy_opt_string(&self.actor_device_id),
            target_secret_id: copy_opt_string(&self.target_secret_id),
            key_version: self.key_version,
            source_event_at: self.source_event_at.clone(),
            metadata: self.metadata.clone(),
        }
    }

    pub fn schema_version(&self) -> (v: u32)
        ensures
            v == self@.schema_version,
    {
        self.schema_version
    }

    pub fn event_id(&self) -> (id: &str)
        ensures
            id@ == self@.event_id,
    {
        self.event_id.as_str()
    }

    pub fn event_type(&self) -> (t: &str)
        ensures
            t@ == self@.event_type,
    {
        self.event_type.as_str()
    }

    pub fn result(&self) -> (r: &str)
        ensures
            r@ == self@.result,
    {
        self.result.as_str()
    }

    pub fn request_id(&self) -> (id: &str)
        ensures
            id@ == self@.request_id,
    {
        self.request_id.as_str()
    }

    pub fn actor_user_id(&self) -> (id: Option<&str>)
        ensures
            match id {
                Some(s) => self@.actor_user_id == Some(s@),
                None => self@.actor_user_id is None,
            },
    {
        match &self.actor_user_id {
            Some(s) => Some(s.as_str()),
            None => None,
        }
    }

    pub fn actor_device_id(&self) -> (id: Option<&str>)
        ensures
            match id {
                Some(s) => self@.actor_device_id == Some(s@),
                None => self@.actor_device_id is None,
            },
    {
        match &self.actor_device_id {
            Some(s) => Some(s.as_str()),
            None => None,
        }
    }

    pub fn target_secret_id(&self) -> (id: Option<&str>)
        ensures
            match id {
                Some(s) => self@.target_secret_id == Some(s@),
                None => self@.target_secret_id is None,
            },
    {
        match &self.target_secret_id {
            Some(s) => Some(s.as_str()),
            None => None,
        }
    }

    pub fn key_version(&self) -> (v: Option<u32>)
        ensures
            v == self@.key_version,
    {
        self.key_version
    }

    pub fn source_event_at(&self) -> (at: &str)
        ensures
            at@ == self@.source_event_at,
    {
        self.source_event_at.as_str()
    }

    /// The JSON text of the event's metadata object.
    pub fn metadata(&self) -> (m: &str)
        ensures
            m@ == self@.metadata,
    {
        self.metadata.as_str()
    }
}

} // verus!
