use vstd::prelude::*;
use vstd::string::*;

use crate::encoding::{bytea_marker, hex_decodable, hex_decoded, hex_decode};
use crate::server::scheduler::LedgerVerificationSummary;
use crate::server::supabase::LEDGER_PUBLIC_KEY_LENGTH;
use crate::siem::buffer::{parse_u32, u32_text_value};
use crate::text::{has_prefix, starts_with, str_eq, strip_prefix};

verus! {

/// Errors of the `signature-key` command.
#[derive(Debug, Clone, PartialEq, Eq)]
pub enum SignatureKeyCliError {
    Usage(String),
    Config(String),
    Supabase(String),
    Audit(String),
    Ledger(String),
    Serialization(String),
}

pub open spec fn signature_key_error_display(error: SignatureKeyCliError) -> Seq<char> {
    match error {
        SignatureKeyCliError::Usage(m) => m@,
        SignatureKeyCliError::Config(m) => "signature key config error: "@ + m@,
        SignatureKeyCliError::Supabase(m) => "signature key Supabase RPC error: "@ + m@,
        SignatureKeyCliError::Audit(m) => "signature key audit error: "@ + m@,
        SignatureKeyCliError::Ledger(m) => "signature key ledger error: "@ + m@,
        SignatureKeyCliError::Serialization(m) => "signature key serialization error: "@ + m@,
    }
}

fn prefixed_text(prefix: &str, message: &String) -> (text: String)
    ensures
        text@ == prefix@ + message@,
{
    let mut out = prefix.to_string();
    out.append(message.as_str());
    out
}

impl SignatureKeyCliError {
    /// The human-readable description of the error.
    pub fn to_display_string(&self) -> (text: String)
        ensures
            text@ == signature_key_error_display(*self),
    {
        match self {
            SignatureKeyCliError::Usage(m) => m.clone(),
            SignatureKeyCliError::Config(m) => prefixed_text("signature key config error: ", m),
            SignatureKeyCliError::Supabase(m) => prefixed_text("signature key Supabase RPC error: ", m),
            SignatureKeyCliError::Audit(m) => prefixed_text("signature key audit error: ", m),
            SignatureKeyCliError::Ledger(m) => prefixed_text("signature key ledger error: ", m),
            SignatureKeyCliError::Serialization(m) => prefixed_text("signature key serialization error: ", m),
        }
    }
}

/// The usage text of the `signature-key` command.
pub open spec fn usage_text() -> Seq<char> {
    "usage:"@ + "\n"@ + "  mipsorcu signature-key public-key --format json"@ + "\n"@
        + "  mipsorcu signature-key status --key-version <n> --format json"@ + "\n"@
        + "  mipsorcu signature-key create --key-version <n> [--public-key-hex <64-hex>]"@ + "\n"@
        + "  mipsorcu signature-key activate --key-version <n>"@ + "\n"@
        + "  mipsorcu signature-key retire --key-version <n>"@ + "\n"@
        + "  mipsorcu signature-key verify-all --format json"@
}

pub fn usage() -> (text: String)
    ensures
        text@ == usage_text(),
{
    let mut out = String::from_str("usage:");
    out.append("\n");
    out.append("  mipsorcu signature-key public-key --format json");
    out.append("\n");
    out.append("  mipsorcu signature-key status --key-version <n> --format json");
    out.append("\n");
    out.append("  mipsorcu signature-key create --key-version <n> [--public-key-hex <64-hex>]");
    out.append("\n");
    out.append("  mipsorcu signature-key activate --key-version <n>");
    out.append("\n");
    out.append("  mipsorcu signature-key retire --key-version <n>");
    out.append("\n");
    out.append("  mipsorcu signature-key verify-all --format json");
    out
}

fn usage_error() -> (error: SignatureKeyCliError)
    ensures
        error matches SignatureKeyCliError::Usage(m) && m@ == usage_text(),
{
    SignatureKeyCliError::Usage(usage())
}

/// Subcommands of `signature-key`.
#[derive(Debug, Clone, Copy, PartialEq, Eq, Structural)]
pub enum SignatureKeyCommand {
    PublicKey,
    Status,
    Create,
    Activate,
    Retire,
    VerifyAll,
}

pub open spec fn command_of(name: Seq<char>) -> Option<SignatureKeyCommand> {
    if name == "public-key"@ {
        Some(SignatureKeyCommand::PublicKey)
    } else if name == "status"@ {
        Some(SignatureKeyCommand::Status)
    } else if name == "create"@ {
        Some(SignatureKeyCommand::Create)
    } else if name == "activate"@ {
        Some(SignatureKeyCommand::Activate)
    } else if name == "retire"@ {
        Some(SignatureKeyCommand::Retire)
    } else if name == "verify-all"@ {
        Some(SignatureKeyCommand::VerifyAll)
    } else {
        None
    }
}

/// The subcommand named by the first argument; none or an unknown name is a
/// usage error. The remaining arguments belong to the subcommand.
pub fn parse_command(args: &[String]) -> (command: Result<SignatureKeyCommand, SignatureKeyCliError>)
    ensures
        (args@.len() > 0 && command_of(args@[0]@) is Some) ==> command == Ok::<
            SignatureKeyCommand,
            SignatureKeyCliError,
        >(command_of(args@[0]@).unwrap()),
        !(args@.len() > 0 && command_of(args@[0]@) is Some) ==> (command matches Err(
            SignatureKeyCliError::Usage(m),
        ) && m@ == usage_text()),
{
    if args.len() == 0 {
        return Err(usage_error());
    }
    let name = args[0].as_str();
    if str_eq(name, "public-key") {
        Ok(SignatureKeyCommand::PublicKey)
    } else if str_eq(name, "status") {
        Ok(SignatureKeyCommand::Status)
    } else if str_eq(name, "create") {
        Ok(SignatureKeyCommand::Create)
    } else if str_eq(name, "activate") {
        Ok(SignatureKeyCommand::Activate)
    } else if str_eq(name, "retire") {
        Ok(SignatureKeyCommand::Retire)
    } else if str_eq(name, "verify-all") {
        Ok(SignatureKeyCommand::VerifyAll)
    } else {
        Err(usage_error())
    }
}

/// A value given after a flag: present and not itself a flag.
pub open spec fn flag_value_ok(args: Seq<String>, i: int) -> bool {
    i + 1 < args.len() && !has_prefix(args[i + 1]@, "--"@)
}

/// Scans `args` from position `i` for `flag` followed by a key version
/// (a positive `u32`); the last occurrence counts and any malformed one is
/// an error (`Err(())`). `found` is what the scan before `i` found.
pub open spec fn key_version_scan(args: Seq<String>, flag: Seq<char>, i: int, found: Option<u32>) -> Result<
    Option<u32>,
    (),
>
    decreases args.len() - i,
{
    if i >= args.len() || i < 0 {
        Ok(found)
    } else if args[i]@ == flag {
        if !flag_value_ok(args, i) {
            Err(())
        } else {
            match u32_text_value(args[i + 1]@) {
                None => Err(()),
                Some(raw) => if raw == 0 {
                    Err(())
                } else {
                    key_version_scan(args, flag, i + 2, Some(raw))
                },
            }
        }
    } else {
        key_version_scan(args, flag, i + 1, found)
    }
}

/// The key version given with `flag`; a missing or malformed one is a usage error.
pub fn parse_key_version_flag(args: &[String], flag: &str) -> (key_version: Result<u32, SignatureKeyCliError>)
    ensures
        key_version_scan(args@, flag@, 0, None) matches Ok(Some(v)) ==> key_version == Ok::<
            u32,
            SignatureKeyCliError,
        >(v),
        !(key_version_scan(args@, flag@, 0, None) is Ok && key_version_scan(args@, flag@, 0, None)->Ok_0 is Some)
            ==> (key_version matches Err(SignatureKeyCliError::Usage(m)) && m@ == usage_text()),
{
    let mut parsed: Option<u32> = None;
    let mut i: usize = 0;
    proof {
        reveal_strlit("--");
    }
    while i < args.len()
        invariant
            i <= args@.len(),
            key_version_scan(args@, flag@, i as int, parsed) == key_version_scan(args@, flag@, 0, None),
        decreases args@.len() - i,
    {
        if str_eq(args[i].as_str(), flag) {
            if i + 1 >= args.len() {
                return Err(usage_error());
            }
            let value = args[i + 1].as_str();
            if starts_with(value, "--") {
                return Err(usage_error());
            }
            let raw = match parse_u32(value) {
                Some(raw) => raw,
                None => {
                    return Err(usage_error());
                },
            };
            if raw == 0 {
                return Err(usage_error());
            }
            parsed = Some(raw);
            i = i + 2;
        } else {
            i = i + 1;
        }
    }
    match parsed {
        Some(v) => Ok(v),
        None => Err(usage_error()),
    }
}

/// Scans `args` from `i` for `--format json`, skipping the values of
/// `--key-version` and `--public-key-hex`: `Err(())` for a missing or other
/// format, else whether `--format json` was seen.
pub open spec fn format_scan(args: Seq<String>, i: int, found: bool) -> Result<bool, ()>
    decreases args.len() + 1 - i,
{
    if i >= args.len() || i < 0 {
        Ok(found)
    } else if args[i]@ == "--format"@ {
        if i + 1 >= args.len() || args[i + 1]@ != "json"@ {
            Err(())
        } else {
            format_scan(args, i + 2, true)
        }
    } else if args[i]@ == "--key-version"@ || args[i]@ == "--public-key-hex"@ {
        format_scan(args, i + 2, found)
    } else {
        format_scan(args, i + 1, found)
    }
}

/// Requires `--format json`; anything else is a usage error.
pub fn parse_format_json(args: &[String]) -> (checked: Result<(), SignatureKeyCliError>)
    ensures
        format_scan(args@, 0, false) == Ok::<bool, ()>(true) ==> checked is Ok,
        format_scan(args@, 0, false) != Ok::<bool, ()>(true) ==> (checked matches Err(
            SignatureKeyCliError::Usage(m),
        ) && m@ == usage_text()),
{
    let mut found = false;
    let mut i: usize = 0;
    while i < args.len()
        invariant
            i <= args@.len() + 1,
            format_scan(args@, i as int, found) == format_scan(args@, 0, false),
        decreases args@.len() + 1 - i,
    {
        let arg = args[i].as_str();
        if str_eq(arg, "--format") {
            if i + 1 >= args.len() || !str_eq(args[i + 1].as_str(), "json") {
                return Err(usage_error());
            }
            found = true;
            i = i + 2;
        } else if str_eq(arg, "--key-version") || str_eq(arg, "--public-key-hex") {
            if i + 1 < args.len() {
                i = i + 2;
            } else {
                assert(format_scan(args@, i + 2, found) == format_scan(args@, args@.len() as int, found));
                i = args.len();
            }
        } else {
            i = i + 1;
        }
    }
    if found {
        Ok(())
    } else {
        Err(usage_error())
    }
}

/// Scans `args` from `i` for `--public-key-hex` and its value (the last one
/// counts); `Err(())` for a missing value or one that is a flag.
pub open spec fn public_key_hex_scan(args: Seq<String>, i: int, found: Option<Seq<char>>) -> Result<
    Option<Seq<char>>,
    (),
>
    decreases args.len() - i,
{
    if i >= args.len() || i < 0 {
        Ok(found)
    } else if args[i]@ == "--public-key-hex"@ {
        if !flag_value_ok(args, i) {
            Err(())
        } else {
            public_key_hex_scan(args, i + 2, Some(args[i + 1]@))
        }
    } else {
        public_key_hex_scan(args, i + 1, found)
    }
}

/// Where the public key of `create` comes from.
#[derive(Debug, Clone, PartialEq, Eq)]
pub enum PublicKeyChoice {
    /// The configured signing key's own public key.
    Configured,
    /// The 32-byte public key given on the command line.
    Provided(Vec<u8>),
}

/// The hex digits of a given public key, without an optional `bytea` marker.
pub open spec fn public_key_digits(text: Seq<char>) -> Seq<char> {
    if has_prefix(text, bytea_marker()) {
        text.subrange(2, text.len() as int)
    } else {
        text
    }
}

pub open spec fn message_for_version_mismatch() -> Seq<char> {
    "key-version must match configured signing key when --public-key-hex is omitted"@
}

/// Chooses the public key for `create`: without `--public-key-hex` the
/// configured key is used, and only for its own version; with it, the value
/// (an optional `\x` then 64 hex digits) must decode to 32 bytes.
pub fn parse_public_key_arg(args: &[String], key_version: u32, configured_key_version: u32) -> (choice: Result<
    PublicKeyChoice,
    SignatureKeyCliError,
>)
    ensures
        match public_key_hex_scan(args@, 0, None) {
            Err(()) => choice matches Err(SignatureKeyCliError::Usage(m)) && m@ == usage_text(),
            Ok(None) => if configured_key_version == key_version {
                choice == Ok::<PublicKeyChoice, SignatureKeyCliError>(PublicKeyChoice::Configured)
            } else {
                choice matches Err(SignatureKeyCliError::Usage(m)) && m@ == message_for_version_mismatch()
            },
            Ok(Some(text)) => if hex_decodable(public_key_digits(text)) && hex_decoded(
                public_key_digits(text),
            ).len() == LEDGER_PUBLIC_KEY_LENGTH {
                choice matches Ok(PublicKeyChoice::Provided(bytes)) && bytes@ == hex_decoded(
                    public_key_digits(text),
                )
            } else {
                choice matches Err(SignatureKeyCliError::Usage(m)) && m@ == usage_text()
            },
        },
{
    proof {
        reveal_strlit("--");
        reveal_strlit("\\x");
        assert("\\x"@ =~= bytea_marker());
    }
    let mut found: Option<&str> = None;
    let mut i: usize = 0;
    while i < args.len()
        invariant
            i <= args@.len() + 1,
            public_key_hex_scan(args@, i as int, match found {
                Some(t) => Some(t@),
                None => None,
            }) == public_key_hex_scan(args@, 0, None),
        decreases args@.len() + 1 - i,
    {
        if str_eq(args[i].as_str(), "--public-key-hex") {
            if i + 1 >= args.len() {
                return Err(usage_error());
            }
            let value = args[i + 1].as_str();
            if starts_with(value, "--") {
                return Err(usage_error());
            }
            found = Some(value);
            i = i + 2;
        } else {
            i = i + 1;
        }
    }
    let raw_hex = match found {
        None => {
            if configured_key_version != key_version {
                return Err(
                    SignatureKeyCliError::Usage(
                        "key-version must match configured signing key when --public-key-hex is omitted".to_string(),
                    ),
                );
            }
            return Ok(PublicKeyChoice::Configured);
        },
        Some(text) => text,
    };
    let digits = match strip_prefix(raw_hex, "\\x") {
        Some(rest) => rest,
        None => raw_hex.to_string(),
    };
    let bytes = match hex_decode(digits.as_str()) {
        Some(bytes) => bytes,
        None => {
            return Err(usage_error());
        },
    };
    if bytes.len() != LEDGER_PUBLIC_KEY_LENGTH {
        return Err(usage_error());
    }
    Ok(PublicKeyChoice::Provided(bytes))
}

/// The outcome `verify-all` reports: validity, entries checked, error code.
pub open spec fn verify_all_report(outcome: Result<LedgerVerificationSummary, &'static str>) -> (bool, u64, Option<&'static str>) {
    match outcome {
        Ok(summary) => (summary.valid, summary.checked_count, summary.error_code),
        Err(code) => (false, 0, Some(code)),
    }
}

pub fn verify_all_outcome(outcome: Result<LedgerVerificationSummary, &'static str>) -> (report: (bool, u64, Option<&'static str>))
    ensures
        report == verify_all_report(outcome),
{
    match outcome {
        Ok(summary) => (summary.valid, summary.checked_count, summary.error_code),
        Err(code) => (false, 0, Some(code)),
    }
}

/// The command's exit: success for a valid ledger, else a ledger error with
/// the error code (or `ledger_signature_verification_failed`).
pub fn verify_all_exit(valid: bool, error_code: Option<&'static str>) -> (exit: Result<(), SignatureKeyCliError>)
    ensures
        valid ==> exit is Ok,
        !valid ==> (exit matches Err(SignatureKeyCliError::Ledger(m)) && m@ == match error_code {
            Some(c) => c@,
            None => "ledger_signature_verification_failed"@,
        }),
{
    if valid {
        Ok(())
    } else {
        match error_code {
            Some(code) => Err(SignatureKeyCliError::Ledger(code.to_string())),
            None => Err(SignatureKeyCliError::Ledger("ledger_signature_verification_failed".to_string())),
        }
    }
}

/// Milliseconds as `u64`, saturating.
pub fn saturating_millis(millis: u128) -> (ms: u64)
    ensures
        millis <= u64::MAX ==> ms == millis,
        millis > u64::MAX ==> ms == u64::MAX,
{
    if millis > 18446744073709551615u128 {
        u64::MAX
    } else {
        millis as u64
    }
}

} // verus!
