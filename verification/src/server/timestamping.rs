use vstd::prelude::*;
use vstd::string::*;

use crate::ledger::{MonthlyDigestPeriod, PeriodError, is_period_text, period_error_text, period_of_text};
use crate::server::use_cases::request_timestamping_for_digest::{
    RequestTimestampingError, request_error_code,
};
use crate::text::{has_prefix, split_commas, split_on_commas, starts_with, str_eq, trim_text, trimmed};
use crate::timestamping::rfc3161::TsaCredentials;
use crate::timestamping::service::{
    TimestampVerification, TimestampingServiceError, TimestampingToken, token_length_ok,
};

verus! {

/// Errors of the `timestamping` command.
#[derive(Debug, Clone, PartialEq, Eq)]
pub enum TimestampingCliError {
    Usage(String),
    Config(String),
    DigestNotFound { period: String },
    VerifyDigestFailed(String),
    RequestFailed(String),
    ArchivePersistFailed(String),
    VerifyNotValid { verify_result: String },
    Serialization(String),
}

pub open spec fn timestamping_cli_error_display(error: TimestampingCliError) -> Seq<char> {
    match error {
        TimestampingCliError::Usage(m) => m@,
        TimestampingCliError::Config(m) => "timestamping config error: "@ + m@,
        TimestampingCliError::DigestNotFound { period } => "monthly digest not found for "@ + period@
            + " (run `mipsorcu digest generate` first)"@,
        TimestampingCliError::VerifyDigestFailed(m) => "timestamping aborted: digest verification failed: "@
            + m@,
        TimestampingCliError::RequestFailed(m) => "timestamping request failed: "@ + m@,
        TimestampingCliError::ArchivePersistFailed(m) => "timestamping token archive persistence failed: "@
            + m@,
        TimestampingCliError::VerifyNotValid { verify_result } => "timestamping verification result: "@
            + verify_result@,
        TimestampingCliError::Serialization(m) => "timestamping serialization error: "@ + m@,
    }
}

fn joined(prefix: &str, message: &String) -> (text: String)
    ensures
        text@ == prefix@ + message@,
{
    let mut out = prefix.to_string();
    out.append(message.as_str());
    out
}

impl TimestampingCliError {
    /// The human-readable description of the error.
    pub fn to_display_string(&self) -> (text: String)
        ensures
            text@ == timestamping_cli_error_display(*self),
    {
        match self {
            TimestampingCliError::Usage(m) => m.clone(),
            TimestampingCliError::Config(m) => joined("timestamping config error: ", m),
            TimestampingCliError::DigestNotFound { period } => {
                let mut out = joined("monthly digest not found for ", period);
                out.append(" (run `mipsorcu digest generate` first)");
                out
            },
            TimestampingCliError::VerifyDigestFailed(m) => joined(
                "timestamping aborted: digest verification failed: ",
                m,
            ),
            TimestampingCliError::RequestFailed(m) => joined("timestamping request failed: ", m),
            TimestampingCliError::ArchivePersistFailed(m) => joined(
                "timestamping token archive persistence failed: ",
                m,
            ),
            TimestampingCliError::VerifyNotValid { verify_result } => joined(
                "timestamping verification result: ",
                verify_result,
            ),
            TimestampingCliError::Serialization(m) => joined("timestamping serialization error: ", m),
        }
    }
}

pub open spec fn usage_text() -> Seq<char> {
    "usage:"@ + "\n"@ + "  mipsorcu timestamping send   --month YYYY-MM --format json"@ + "\n"@
        + "  mipsorcu timestamping verify --month YYYY-MM --format json"@
}

/// The usage text of the `timestamping` command.
pub fn usage() -> (text: String)
    ensures
        text@ == usage_text(),
{
    let mut out = String::from_str("usage:");
    out.append("\n");
    out.append("  mipsorcu timestamping send   --month YYYY-MM --format json");
    out.append("\n");
    out.append("  mipsorcu timestamping verify --month YYYY-MM --format json");
    out
}

fn usage_error() -> (error: TimestampingCliError)
    ensures
        error matches TimestampingCliError::Usage(m) && m@ == usage_text(),
{
    TimestampingCliError::Usage(usage())
}

/// The subcommand and its checked period.
#[derive(Debug, Clone, Copy, PartialEq, Eq, Structural)]
pub enum TimestampingCommand {
    Send { period: MonthlyDigestPeriod },
    Verify { period: MonthlyDigestPeriod },
}

/// What the argument loop collected: the subcommand, `--month` and
/// `--format` values (the last of each counts).
pub struct ScannedArgs {
    pub subcommand: Option<Seq<char>>,
    pub month: Option<Seq<char>>,
    pub format: Option<Seq<char>>,
}

/// The argument loop from position `i`: the first `send` or `verify` is the
/// subcommand, `--month` and `--format` take a value that is not a flag,
/// and anything else (a second subcommand too) is a usage error (`None`).
pub open spec fn scan_args(args: Seq<String>, i: int, acc: ScannedArgs) -> Option<ScannedArgs>
    decreases args.len() - i,
{
    if i >= args.len() || i < 0 {
        Some(acc)
    } else if (args[i]@ == "send"@ || args[i]@ == "verify"@) && acc.subcommand is None {
        scan_args(args, i + 1, ScannedArgs { subcommand: Some(args[i]@), ..acc })
    } else if args[i]@ == "--month"@ || args[i]@ == "--format"@ {
        if i + 1 >= args.len() || has_prefix(args[i + 1]@, "--"@) {
            None
        } else if args[i]@ == "--month"@ {
            scan_args(args, i + 2, ScannedArgs { month: Some(args[i + 1]@), ..acc })
        } else {
            scan_args(args, i + 2, ScannedArgs { format: Some(args[i + 1]@), ..acc })
        }
    } else {
        None
    }
}

/// The command the arguments ask for, or the usage error text: after the
/// loop, `--format json` is required, then a subcommand, then a valid `--month`.
pub open spec fn parsed_command(args: Seq<String>) -> Result<TimestampingCommand, Seq<char>> {
    match scan_args(args, 0, ScannedArgs { subcommand: None, month: None, format: None }) {
        None => Err(usage_text()),
        Some(scanned) => if scanned.format != Some("json"@) {
            Err(usage_text())
        } else if scanned.subcommand is None {
            Err(usage_text())
        } else if scanned.month is None {
            Err(usage_text())
        } else if !is_period_text(scanned.month.unwrap()) {
            Err("invalid --month: "@ + period_error_text())
        } else if scanned.subcommand == Some("send"@) {
            Ok(TimestampingCommand::Send { period: period_of_text(scanned.month.unwrap()) })
        } else {
            Ok(TimestampingCommand::Verify { period: period_of_text(scanned.month.unwrap()) })
        }
    }
}

/// Reads `--month`: required, and a valid `YYYY-MM` period.
pub fn parse_period(month: Option<&str>) -> (period: Result<MonthlyDigestPeriod, TimestampingCliError>)
    ensures
        match month {
            None => period matches Err(TimestampingCliError::Usage(m)) && m@ == usage_text(),
            Some(text) => if is_period_text(text@) {
                period == Ok::<MonthlyDigestPeriod, TimestampingCliError>(period_of_text(text@))
            } else {
                period matches Err(TimestampingCliError::Usage(m)) && m@ == "invalid --month: "@
                    + period_error_text()
            },
        },
{
    let month = match month {
        Some(m) => m,
        None => {
            return Err(usage_error());
        },
    };
    match MonthlyDigestPeriod::parse(month) {
        Ok(p) => Ok(p),
        Err(error) => {
            let mut message = String::from_str("invalid --month: ");
            let detail = error.to_display_string();
            message.append(detail.as_str());
            Err(TimestampingCliError::Usage(message))
        },
    }
}

pub open spec fn opt_view(o: Option<&str>) -> Option<Seq<char>> {
    match o {
        Some(t) => Some(t@),
        None => None,
    }
}

/// Parses the command line of `timestamping` (see `parsed_command`).
pub fn parse_timestamping_args(args: &[String]) -> (command: Result<TimestampingCommand, TimestampingCliError>)
    ensures
        match parsed_command(args@) {
            Ok(c) => command == Ok::<TimestampingCommand, TimestampingCliError>(c),
            Err(text) => command matches Err(TimestampingCliError::Usage(m)) && m@ == text,
        },
{
    proof {
        reveal_strlit("--");
        reveal_strlit("send");
        reveal_strlit("verify");
    }
    let mut subcommand: Option<&str> = None;
    let mut month: Option<&str> = None;
    let mut format: Option<&str> = None;
    let mut i: usize = 0;
    while i < args.len()
        invariant
            i <= args@.len(),
            scan_args(
                args@,
                i as int,
                ScannedArgs {
                    subcommand: opt_view(subcommand),
                    month: opt_view(month),
                    format: opt_view(format),
                },
            ) == scan_args(args@, 0, ScannedArgs { subcommand: None, month: None, format: None }),
            subcommand matches Some(c) ==> (c@ == "send"@ || c@ == "verify"@),
        decreases args@.len() - i,
    {
        let arg = args[i].as_str();
        if (str_eq(arg, "send") || str_eq(arg, "verify")) && subcommand.is_none() {
            subcommand = Some(arg);
            i = i + 1;
        } else if str_eq(arg, "--month") || str_eq(arg, "--format") {
            if i + 1 >= args.len() {
                return Err(usage_error());
            }
            let value = args[i + 1].as_str();
            if starts_with(value, "--") {
                return Err(usage_error());
            }
            if str_eq(arg, "--month") {
                month = Some(value);
            } else {
                format = Some(value);
            }
            i = i + 2;
        } else {
            return Err(usage_error());
        }
    }
    match format {
        Some(f) => if !str_eq(f, "json") {
            return Err(usage_error());
        },
        None => {
            return Err(usage_error());
        },
    }
    match subcommand {
        None => Err(usage_error()),
        Some(c) => {
            let period = parse_period(month)?;
            if str_eq(c, "send") {
                Ok(TimestampingCommand::Send { period })
            } else {
                Ok(TimestampingCommand::Verify { period })
            }
        },
    }
}

/// The CLI error for a failed timestamp request: its error code only.
pub fn map_request_error(error: RequestTimestampingError) -> (cli: TimestampingCliError)
    ensures
        cli matches TimestampingCliError::RequestFailed(m) && m@ == request_error_code(error),
{
    TimestampingCliError::RequestFailed(error.as_error_code().to_string())
}

/// The provider selected by `MIPSORCU_TIMESTAMPING_PROVIDER`.
#[derive(Debug, Clone, Copy, PartialEq, Eq, Structural)]
pub enum ProviderSelection {
    LocalDummy,
    Rfc3161,
}

/// The selection from the variable's value (trimmed; empty counts as
/// unset), or the configuration error text. The value is required so that a
/// production digest is never sent to the dummy provider by mistake.
pub open spec fn provider_selection_of(value: Option<Seq<char>>) -> Result<ProviderSelection, Seq<char>> {
    let v = match value {
        Some(raw) => if trimmed(raw).len() == 0 {
            None
        } else {
            Some(trimmed(raw))
        },
        None => None,
    };
    match v {
        None => Err(
            "MIPSORCU_TIMESTAMPING_PROVIDER must be set to 'local_dummy' or 'rfc3161'"@,
        ),
        Some(name) => if name == "local_dummy"@ {
            Ok(ProviderSelection::LocalDummy)
        } else if name == "rfc3161"@ {
            Ok(ProviderSelection::Rfc3161)
        } else {
            Err("MIPSORCU_TIMESTAMPING_PROVIDER has unsupported value '"@ + name
                + "' (expected 'local_dummy' or 'rfc3161')"@)
        },
    }
}

pub fn select_provider(value: Option<&str>) -> (selection: Result<ProviderSelection, TimestampingCliError>)
    ensures
        match provider_selection_of(match value {
            Some(t) => Some(t@),
            None => None,
        }) {
            Ok(s) => selection == Ok::<ProviderSelection, TimestampingCliError>(s),
            Err(text) => selection matches Err(TimestampingCliError::Config(m)) && m@ == text,
        },
{
    let name = match value {
        None => None,
        Some(raw) => {
            let t = trim_text(raw);
            if t.unicode_len() == 0 {
                None
            } else {
                Some(t)
            }
        },
    };
    match name {
        None => Err(
            TimestampingCliError::Config(
                "MIPSORCU_TIMESTAMPING_PROVIDER must be set to 'local_dummy' or 'rfc3161'".to_string(),
            ),
        ),
        Some(n) => {
            if str_eq(n.as_str(), "local_dummy") {
                Ok(ProviderSelection::LocalDummy)
            } else if str_eq(n.as_str(), "rfc3161") {
                Ok(ProviderSelection::Rfc3161)
            } else {
                let mut message = String::from_str("MIPSORCU_TIMESTAMPING_PROVIDER has unsupported value '");
                message.append(n.as_str());
                message.append("' (expected 'local_dummy' or 'rfc3161')");
                Err(TimestampingCliError::Config(message))
            }
        },
    }
}

/// The trimmed, non-empty pieces of a comma-separated list, in order.
pub open spec fn nonempty_trimmed(pieces: Seq<Seq<char>>) -> Seq<Seq<char>>
    decreases pieces.len(),
{
    if pieces.len() == 0 {
        seq![]
    } else {
        let before = nonempty_trimmed(pieces.drop_last());
        if trimmed(pieces.last()).len() == 0 {
            before
        } else {
            before.push(trimmed(pieces.last()))
        }
    }
}

/// The TSA URLs in fallback order from `MIPSORCU_TSA_URL`, or the
/// configuration error text: the value is required, is split at commas, and
/// each piece trimmed; empty pieces are dropped and at least one must remain.
pub open spec fn tsa_urls_of(value: Option<Seq<char>>) -> Result<Seq<Seq<char>>, Seq<char>> {
    match value {
        None => Err("MIPSORCU_TSA_URL must be set for the rfc3161 provider"@),
        Some(raw) => if trimmed(raw).len() == 0 {
            Err("MIPSORCU_TSA_URL must be set for the rfc3161 provider"@)
        } else if nonempty_trimmed(split_commas(trimmed(raw))).len() == 0 {
            Err("MIPSORCU_TSA_URL did not contain any non-empty TSA URL"@)
        } else {
            Ok(nonempty_trimmed(split_commas(trimmed(raw))))
        },
    }
}

pub fn parse_tsa_urls(value: Option<&str>) -> (urls: Result<Vec<String>, TimestampingCliError>)
    ensures
        match tsa_urls_of(match value {
            Some(t) => Some(t@),
            None => None,
        }) {
            Ok(list) => urls matches Ok(v) && v@.map_values(|u: String| u@) == list,
            Err(text) => urls matches Err(TimestampingCliError::Config(m)) && m@ == text,
        },
{
    let raw = match value {
        None => {
            return Err(
                TimestampingCliError::Config(
                    "MIPSORCU_TSA_URL must be set for the rfc3161 provider".to_string(),
                ),
            );
        },
        Some(raw) => trim_text(raw),
    };
    if raw.unicode_len() == 0 {
        return Err(
            TimestampingCliError::Config("MIPSORCU_TSA_URL must be set for the rfc3161 provider".to_string()),
        );
    }
    let pieces = split_on_commas(raw.as_str());
    let mut urls: Vec<String> = Vec::new();
    let mut i: usize = 0;
    while i < pieces.len()
        invariant
            i <= pieces@.len(),
            pieces@.map_values(|p: String| p@) == split_commas(raw@),
            urls@.map_values(|u: String| u@) == nonempty_trimmed(
                pieces@.map_values(|p: String| p@).subrange(0, i as int),
            ),
        decreases pieces@.len() - i,
    {
        let ghost views = pieces@.map_values(|p: String| p@);
        assert(views.subrange(0, i + 1).drop_last() =~= views.subrange(0, i as int));
        assert(views.subrange(0, i + 1).last() == pieces@[i as int]@);
        let url = trim_text(pieces[i].as_str());
        if url.unicode_len() > 0 {
            let ghost old_views = urls@.map_values(|u: String| u@);
            urls.push(url);
            assert(urls@.map_values(|u: String| u@) =~= old_views.push(url@));
        }
        i = i + 1;
    }
    assert(pieces@.map_values(|p: String| p@).subrange(0, pieces@.len() as int) =~= pieces@.map_values(
        |p: String| p@,
    ));
    if urls.len() == 0 {
        return Err(
            TimestampingCliError::Config(
                "MIPSORCU_TSA_URL did not contain any non-empty TSA URL".to_string(),
            ),
        );
    }
    Ok(urls)
}

/// The optional TSA credentials, or the configuration error text: the
/// username (trimmed) and the password, each ignored when empty, must be
/// given together or not at all.
pub open spec fn credentials_of(username: Option<Seq<char>>, password: Option<Seq<char>>) -> Result<
    Option<(Seq<char>, Seq<char>)>,
    Seq<char>,
> {
    let user = match username {
        Some(u) => if trimmed(u).len() == 0 {
            None
        } else {
            Some(trimmed(u))
        },
        None => None,
    };
    let pass = match password {
        Some(p) => if p.len() == 0 {
            None
        } else {
            Some(p)
        },
        None => None,
    };
    match (user, pass) {
        (Some(u), Some(p)) => Ok(Some((u, p))),
        (None, None) => Ok(None),
        _ => Err(
            "MIPSORCU_TSA_USERNAME and MIPSORCU_TSA_PASSWORD must be set together or not at all"@,
        ),
    }
}

pub fn parse_tsa_credentials(username: Option<&str>, password: Option<&str>) -> (credentials: Result<
    Option<TsaCredentials>,
    TimestampingCliError,
>)
    ensures
        match credentials_of(
            match username {
                Some(t) => Some(t@),
                None => None,
            },
            match password {
                Some(t) => Some(t@),
                None => None,
            },
        ) {
            Ok(None) => credentials matches Ok(None),
            Ok(Some((u, p))) => credentials matches Ok(Some(c)) && c.spec_username() == u
                && c.spec_password() == p,
            Err(text) => credentials matches Err(TimestampingCliError::Config(m)) && m@ == text,
        },
{
    let user = match username {
        None => None,
        Some(raw) => {
            let t = trim_text(raw);
            if t.unicode_len() == 0 {
                None
            } else {
                Some(t)
            }
        },
    };
    let pass = match password {
        None => None,
        Some(p) => if p.unicode_len() == 0 {
            None
        } else {
            Some(p)
        },
    };
    match (user, pass) {
        (Some(u), Some(p)) => Ok(Some(TsaCredentials::new(u.as_str(), p.to_string()))),
        (None, None) => Ok(None),
        _ => Err(
            TimestampingCliError::Config(
                "MIPSORCU_TSA_USERNAME and MIPSORCU_TSA_PASSWORD must be set together or not at all".to_string(),
            ),
        ),
    }
}

/// What `verify` reports for a stored token.
#[derive(Debug, Clone, PartialEq, Eq)]
pub struct VerifyReport {
    pub verify_result: &'static str,
    /// The incident to record when the token is missing or does not verify.
    pub incident_code: Option<&'static str>,
    pub tsa_serial: Option<String>,
    pub gen_time: Option<String>,
}

/// The token read back from the archive: missing, unusable, or a token to verify.
pub enum StoredTokenStep {
    NotFound(VerifyReport),
    Unusable(VerifyReport),
    Verify(TimestampingToken),
}

pub open spec fn report_is(r: VerifyReport, result: Seq<char>, incident: Option<Seq<char>>) -> bool {
    &&& r.verify_result@ == result
    &&& match incident {
        Some(code) => r.incident_code matches Some(c) && c@ == code,
        None => r.incident_code is None,
    }
}

/// Decides what to do with the archive's answer for the period's token.
pub fn stored_token_step(stored: Option<Vec<u8>>) -> (step: StoredTokenStep)
    ensures
        match stored {
            None => step matches StoredTokenStep::NotFound(r) && report_is(
                r,
                "not_found"@,
                Some("digest_timestamping_verify_not_found"@),
            ) && r.tsa_serial is None && r.gen_time is None,
            Some(bytes) => if token_length_ok(bytes@.len() as int) {
                step matches StoredTokenStep::Verify(t) && t@ == bytes@
            } else {
                step matches StoredTokenStep::Unusable(r) && report_is(
                    r,
                    "invalid"@,
                    Some("digest_timestamping_verify_invalid"@),
                ) && r.tsa_serial is None && r.gen_time is None
            },
        },
{
    match stored {
        None => StoredTokenStep::NotFound(
            VerifyReport {
                verify_result: "not_found",
                incident_code: Some("digest_timestamping_verify_not_found"),
                tsa_serial: None,
                gen_time: None,
            },
        ),
        Some(bytes) => match TimestampingToken::new(bytes) {
            Ok(token) => StoredTokenStep::Verify(token),
            Err(_) => StoredTokenStep::Unusable(
                VerifyReport {
                    verify_result: "invalid",
                    incident_code: Some("digest_timestamping_verify_invalid"),
                    tsa_serial: None,
                    gen_time: None,
                },
            ),
        },
    }
}

/// The report for a verification result: valid with the token's serial and
/// time, invalid, or a backend error; the last two raise an incident.
pub fn verify_report(result: Result<TimestampVerification, TimestampingServiceError>) -> (report: VerifyReport)
    ensures
        match result {
            Ok(TimestampVerification::Valid(meta)) => report_is(report, "valid"@, None)
                && report.tsa_serial == Some(meta.tsa_serial_hex) && report.gen_time == meta.gen_time,
            Ok(TimestampVerification::Invalid { .. }) => report_is(
                report,
                "invalid"@,
                Some("digest_timestamping_verify_invalid"@),
            ) && report.tsa_serial is None && report.gen_time is None,
            Err(_) => report_is(report, "error"@, Some("digest_timestamping_verify_failed"@))
                && report.tsa_serial is None && report.gen_time is None,
        },
{
    match result {
        Ok(TimestampVerification::Valid(meta)) => VerifyReport {
            verify_result: "valid",
            incident_code: None,
            tsa_serial: Some(meta.tsa_serial_hex),
            gen_time: meta.gen_time,
        },
        Ok(TimestampVerification::Invalid { .. }) => VerifyReport {
            verify_result: "invalid",
            incident_code: Some("digest_timestamping_verify_invalid"),
            tsa_serial: None,
            gen_time: None,
        },
        Err(_) => VerifyReport {
            verify_result: "error",
            incident_code: Some("digest_timestamping_verify_failed"),
            tsa_serial: None,
            gen_time: None,
        },
    }
}

/// The serial and time that `send` prints after checking the token it just
/// obtained; a failed check prints neither (best effort).
pub fn self_check_metadata(result: Result<TimestampVerification, TimestampingServiceError>) -> (meta: (
    Option<String>,
    Option<String>,
))
    ensures
        match result {
            Ok(TimestampVerification::Valid(v)) => meta == (Some(v.tsa_serial_hex), v.gen_time),
            _ => meta == (None::<String>, None::<String>),
        },
{
    match result {
        Ok(TimestampVerification::Valid(v)) => (Some(v.tsa_serial_hex), v.gen_time),
        _ => (None, None),
    }
}

/// `verify` fails the command unless the token is valid.
pub fn verify_exit(verify_result: &str) -> (exit: Result<(), TimestampingCliError>)
    ensures
        verify_result@ == "valid"@ ==> exit is Ok,
        verify_result@ != "valid"@ ==> (exit matches Err(TimestampingCliError::VerifyNotValid { verify_result: r })
            && r@ == verify_result@),
{
    if str_eq(verify_result, "valid") {
        Ok(())
    } else {
        Err(TimestampingCliError::VerifyNotValid { verify_result: verify_result.to_string() })
    }
}

/// Where the `send` command stands.
pub enum SendStage {
    Start,
    /// The stored digest is being verified (a tampered digest is never sent).
    AwaitDigestVerification,
    /// The failed verification, described by `message`, is being audited.
    AwaitVerifyFailureAudit { message: String },
    AwaitVerifySuccessAudit,
    /// The signed digest is being rebuilt from its materials and the provider built.
    AwaitPreparation,
    AwaitTimestamp,
    /// The obtained token is being stored in the archive.
    AwaitTokenPersisted,
    /// The obtained token is being verified against the digest hash.
    AwaitSelfCheck,
    Done,
}

/// The outcome of the outside work of the previous step.
pub enum SendEvent {
    Begin,
    /// The digest verified, or the text of the verification error.
    DigestVerified(Result<(), String>),
    AuditRecorded,
    /// The digest was rebuilt and the provider built, or the command's error.
    Prepared(Result<(), TimestampingCliError>),
    TimestampObtained(Result<(), RequestTimestampingError>),
    /// The token was stored, or the text of the archive error.
    TokenPersisted(Result<(), String>),
    SelfChecked(Result<TimestampVerification, TimestampingServiceError>),
}

/// What the caller must do next.
pub enum SendAction {
    VerifyDigest,
    RecordVerifyFailureAudit,
    RecordVerifySuccessAudit,
    PrepareDigestAndProvider,
    RequestTimestamp,
    PersistToken,
    SelfCheckToken,
    /// Print the output with the serial and generation time of the self-check.
    FinishOk { tsa_serial: Option<String>, gen_time: Option<String> },
    FinishErr(TimestampingCliError),
}

pub open spec fn send_event_fits(stage: SendStage, event: SendEvent) -> bool {
    match stage {
        SendStage::Start => event is Begin,
        SendStage::AwaitDigestVerification => event is DigestVerified,
        SendStage::AwaitVerifyFailureAudit { .. } => event is AuditRecorded,
        SendStage::AwaitVerifySuccessAudit => event is AuditRecorded,
        SendStage::AwaitPreparation => event is Prepared,
        SendStage::AwaitTimestamp => event is TimestampObtained,
        SendStage::AwaitTokenPersisted => event is TokenPersisted,
        SendStage::AwaitSelfCheck => event is SelfChecked,
        SendStage::Done => false,
    }
}

/// The command ends with `error`.
pub open spec fn send_fails_with(step: (SendStage, SendAction), error: TimestampingCliError) -> bool {
    step.0 is Done && step.1 == SendAction::FinishErr(error)
}

/// The steps of `timestamping send`: verify the stored digest first (a
/// failure is audited and ends the command before anything is sent), audit
/// the success, rebuild the digest and build the provider, request the
/// timestamp, store the token in the archive, and self-check the token; the
/// self-check only fills the serial and generation time of the output and
/// never fails the command.
pub fn next_send_step(stage: SendStage, event: SendEvent) -> (step: (SendStage, SendAction))
    requires
        send_event_fits(stage, event),
    ensures
        stage is Start ==> step.0 is AwaitDigestVerification && step.1 is VerifyDigest,
        stage is AwaitDigestVerification ==> match event {
            SendEvent::DigestVerified(Ok(())) => step.0 is AwaitVerifySuccessAudit && step.1 is RecordVerifySuccessAudit,
            SendEvent::DigestVerified(Err(m)) => (step.0 matches SendStage::AwaitVerifyFailureAudit { message }
                && message@ == m@) && step.1 is RecordVerifyFailureAudit,
            _ => false,
        },
        stage matches SendStage::AwaitVerifyFailureAudit { message } ==> (step.1 matches SendAction::FinishErr(
            TimestampingCliError::VerifyDigestFailed(m),
        ) && m@ == message@ && step.0 is Done),
        stage is AwaitVerifySuccessAudit ==> step.0 is AwaitPreparation && step.1 is PrepareDigestAndProvider,
        stage is AwaitPreparation ==> match event {
            SendEvent::Prepared(Ok(())) => step.0 is AwaitTimestamp && step.1 is RequestTimestamp,
            SendEvent::Prepared(Err(e)) => send_fails_with(step, e),
            _ => false,
        },
        stage is AwaitTimestamp ==> match event {
            SendEvent::TimestampObtained(Ok(())) => step.0 is AwaitTokenPersisted && step.1 is PersistToken,
            SendEvent::TimestampObtained(Err(e)) => (step.1 matches SendAction::FinishErr(
                TimestampingCliError::RequestFailed(m),
            ) && m@ == request_error_code(e) && step.0 is Done),
            _ => false,
        },
        stage is AwaitTokenPersisted ==> match event {
            SendEvent::TokenPersisted(Ok(())) => step.0 is AwaitSelfCheck && step.1 is SelfCheckToken,
            SendEvent::TokenPersisted(Err(m)) => (step.1 matches SendAction::FinishErr(
                TimestampingCliError::ArchivePersistFailed(x),
            ) && x@ == m@ && step.0 is Done),
            _ => false,
        },
        stage is AwaitSelfCheck ==> match event {
            SendEvent::SelfChecked(Ok(TimestampVerification::Valid(v))) => step.0 is Done && step.1
                == (SendAction::FinishOk { tsa_serial: Some(v.tsa_serial_hex), gen_time: v.gen_time }),
            SendEvent::SelfChecked(_) => step.0 is Done && step.1
                == (SendAction::FinishOk { tsa_serial: None, gen_time: None }),
            _ => false,
        },
{
    match stage {
        SendStage::Start => (SendStage::AwaitDigestVerification, SendAction::VerifyDigest),
        SendStage::AwaitDigestVerification => match event {
            SendEvent::DigestVerified(Ok(())) => (SendStage::AwaitVerifySuccessAudit, SendAction::RecordVerifySuccessAudit),
            SendEvent::DigestVerified(Err(message)) => (
                SendStage::AwaitVerifyFailureAudit { message },
                SendAction::RecordVerifyFailureAudit,
            ),
            _ => (SendStage::Done, SendAction::VerifyDigest),
        },
        SendStage::AwaitVerifyFailureAudit { message } => (
            SendStage::Done,
            SendAction::FinishErr(TimestampingCliError::VerifyDigestFailed(message)),
        ),
        SendStage::AwaitVerifySuccessAudit => (SendStage::AwaitPreparation, SendAction::PrepareDigestAndProvider),
        SendStage::AwaitPreparation => match event {
            SendEvent::Prepared(Ok(())) => (SendStage::AwaitTimestamp, SendAction::RequestTimestamp),
            SendEvent::Prepared(Err(e)) => (SendStage::Done, SendAction::FinishErr(e)),
            _ => (SendStage::Done, SendAction::VerifyDigest),
        },
        SendStage::AwaitTimestamp => match event {
            SendEvent::TimestampObtained(Ok(())) => (SendStage::AwaitTokenPersisted, SendAction::PersistToken),
            SendEvent::TimestampObtained(Err(e)) => (SendStage::Done, SendAction::FinishErr(map_request_error(e))),
            _ => (SendStage::Done, SendAction::VerifyDigest),
        },
        SendStage::AwaitTokenPersisted => match event {
            SendEvent::TokenPersisted(Ok(())) => (SendStage::AwaitSelfCheck, SendAction::SelfCheckToken),
            SendEvent::TokenPersisted(Err(m)) => (
                SendStage::Done,
                SendAction::FinishErr(TimestampingCliError::ArchivePersistFailed(m)),
            ),
            _ => (SendStage::Done, SendAction::VerifyDigest),
        },
        SendStage::AwaitSelfCheck => match event {
            SendEvent::SelfChecked(result) => {
                let (tsa_serial, gen_time) = self_check_metadata(result);
                (SendStage::Done, SendAction::FinishOk { tsa_serial, gen_time })
            },
            _ => (SendStage::Done, SendAction::VerifyDigest),
        },
        SendStage::Done => (SendStage::Done, SendAction::VerifyDigest),
    }
}

} // verus!
