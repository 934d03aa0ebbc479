use vstd::prelude::*;

use super::SupabaseRpcError;

verus! {

/// One row of the incident recording RPC.
#[derive(Debug, Clone, PartialEq, Eq)]
pub struct RecordIncidentResponse {
    pub audit_event_id: String,
    pub ledger_entry_id: Option<String>,
    pub suppressed: bool,
}

/// Result of recording an incident: the audit event, and whether the
/// incident was suppressed as a duplicate within the dedupe window.
#[derive(Debug, Clone, PartialEq, Eq)]
pub struct IncidentRecordOutcome {
    pub audit_event_id: String,
    pub suppressed: bool,
}

impl IncidentRecordOutcome {
    /// Reads an incident row: an incident that was not suppressed must have
    /// been written to the ledger.
    pub fn try_from_response(r: RecordIncidentResponse) -> (outcome: Result<Self, SupabaseRpcError>)
        ensures
            (!r.suppressed && r.ledger_entry_id is None) ==> (outcome matches Err(
                SupabaseRpcError::InvalidResponse(m),
            ) && m@ == "incident RPC returned null ledger_entry_id for unsuppressed incident"@),
            !(!r.suppressed && r.ledger_entry_id is None) ==> (outcome matches Ok(o)
                && o.audit_event_id@ == r.audit_event_id@ && o.suppressed == r.suppressed),
    {
        if !r.suppressed && r.ledger_entry_id.is_none() {
            return Err(
                SupabaseRpcError::InvalidResponse(
                    "incident RPC returned null ledger_entry_id for unsuppressed incident".to_string(),
                ),
            );
        }
        Ok(IncidentRecordOutcome { audit_event_id: r.audit_event_id, suppressed: r.suppressed })
    }
}

} // verus!
