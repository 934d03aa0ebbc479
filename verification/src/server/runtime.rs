use vstd::prelude::*;

use crate::text::str_eq;

verus! {

/// The command the process was started for, with the arguments that follow
/// the command's name.
#[derive(Debug, PartialEq, Eq)]
pub enum EntrypointCommand<'a> {
    Server,
    KeyRotation(&'a [String]),
    IntegrityCheck(&'a [String]),
    Auditor(&'a [String]),
    Digest(&'a [String]),
    Archive(&'a [String]),
    AuditReport(&'a [String]),
    SignatureKey(&'a [String]),
    Timestamping(&'a [String]),
    Usage,
}

/// Kind of entrypoint command, without its arguments.
#[derive(Debug, Clone, Copy, PartialEq, Eq, Structural)]
pub enum EntrypointKind {
    Server,
    KeyRotation,
    IntegrityCheck,
    Auditor,
    Digest,
    Archive,
    AuditReport,
    SignatureKey,
    Timestamping,
    Usage,
}

/// The kind a command name selects; `server` takes no arguments.
pub open spec fn entrypoint_kind_of(args: Seq<String>) -> EntrypointKind {
    if args.len() == 0 {
        EntrypointKind::Server
    } else {
        let name = args[0]@;
        if name == "server"@ {
            if args.len() == 1 {
                EntrypointKind::Server
            } else {
                EntrypointKind::Usage
            }
        } else if name == "key-rotation"@ {
            EntrypointKind::KeyRotation
        } else if name == "integrity-check"@ {
            EntrypointKind::IntegrityCheck
        } else if name == "auditor"@ {
            EntrypointKind::Auditor
        } else if name == "digest"@ {
            EntrypointKind::Digest
        } else if name == "archive"@ {
            EntrypointKind::Archive
        } else if name == "audit-report"@ {
            EntrypointKind::AuditReport
        } else if name == "signature-key"@ {
            EntrypointKind::SignatureKey
        } else if name == "timestamping"@ {
            EntrypointKind::Timestamping
        } else {
            EntrypointKind::Usage
        }
    }
}

pub open spec fn kind_of_command(command: EntrypointCommand) -> EntrypointKind {
    match command {
        EntrypointCommand::Server => EntrypointKind::Server,
        EntrypointCommand::KeyRotation(_) => EntrypointKind::KeyRotation,
        EntrypointCommand::IntegrityCheck(_) => EntrypointKind::IntegrityCheck,
        EntrypointCommand::Auditor(_) => EntrypointKind::Auditor,
        EntrypointCommand::Digest(_) => EntrypointKind::Digest,
        EntrypointCommand::Archive(_) => EntrypointKind::Archive,
        EntrypointCommand::AuditReport(_) => EntrypointKind::AuditReport,
        EntrypointCommand::SignatureKey(_) => EntrypointKind::SignatureKey,
        EntrypointCommand::Timestamping(_) => EntrypointKind::Timestamping,
        EntrypointCommand::Usage => EntrypointKind::Usage,
    }
}

/// The arguments a command carries, if it carries any.
pub open spec fn command_args(command: EntrypointCommand) -> Option<Seq<String>> {
    match command {
        EntrypointCommand::KeyRotation(a) => Some(a@),
        EntrypointCommand::IntegrityCheck(a) => Some(a@),
        EntrypointCommand::Auditor(a) => Some(a@),
        EntrypointCommand::Digest(a) => Some(a@),
        EntrypointCommand::Archive(a) => Some(a@),
        EntrypointCommand::AuditReport(a) => Some(a@),
        EntrypointCommand::SignatureKey(a) => Some(a@),
        EntrypointCommand::Timestamping(a) => Some(a@),
        _ => None,
    }
}

/// Reads the process arguments (without the program name): no argument
/// runs the server; otherwise the first names the command and the rest are
/// its arguments; an unknown name, or `server` with arguments, asks for usage.
pub fn parse_entrypoint_command(args: &[String]) -> (command: EntrypointCommand<'_>)
    ensures
        kind_of_command(command) == entrypoint_kind_of(args@),
        command_args(command) matches Some(rest) ==> rest == args@.subrange(1, args@.len() as int),
{
    if args.len() == 0 {
        return EntrypointCommand::Server;
    }
    let name = args[0].as_str();
    let rest = vstd::slice::slice_subrange(args, 1, args.len());
    if str_eq(name, "server") {
        if rest.len() == 0 {
            EntrypointCommand::Server
        } else {
            EntrypointCommand::Usage
        }
    } else if str_eq(name, "key-rotation") {
        EntrypointCommand::KeyRotation(rest)
    } else if str_eq(name, "integrity-check") {
        EntrypointCommand::IntegrityCheck(rest)
    } else if str_eq(name, "auditor") {
        EntrypointCommand::Auditor(rest)
    } else if str_eq(name, "digest") {
        EntrypointCommand::Digest(rest)
    } else if str_eq(name, "archive") {
        EntrypointCommand::Archive(rest)
    } else if str_eq(name, "audit-report") {
        EntrypointCommand::AuditReport(rest)
    } else if str_eq(name, "signature-key") {
        EntrypointCommand::SignatureKey(rest)
    } else if str_eq(name, "timestamping") {
        EntrypointCommand::Timestamping(rest)
    } else {
        EntrypointCommand::Usage
    }
}

} // verus!
