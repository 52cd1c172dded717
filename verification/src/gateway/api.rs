//! Request and response logic of the banking gateway's REST API.
use crate::gateway::storage::{PaymentRecord, PaymentStatus};
use crate::iso20022::builder::{build_camt053, camt053_xml, contains_text, law_camt053_entry_fields};
use crate::iso20022::parser::{parse_pain001, spec_parse_pain001, Pain001Error};
use crate::iso20022::types::{Amount, PaymentInstruction, StatementEntry};
use crate::text::same_text;
use vstd::prelude::*;
use vstd::string::*;
use vstd::utf8::*;

verus! {

/// The API key the server expects, carried with each request.
#[derive(Clone, Debug)]
pub struct ApiKey(pub String);

/// Whether a request may pass: with a configured key, only a request that presents that
/// same key; with none configured (development), every request.
pub open spec fn spec_authorized(expected: Option<Seq<char>>, provided: Option<Seq<char>>) -> bool {
    match expected {
        None => true,
        Some(e) => provided == Some(e),
    }
}

/// Validates the `X-API-Key` header value against the configured key.
pub fn authorize(expected: Option<&str>, provided: Option<&str>) -> (r: bool)
    ensures
        r == spec_authorized(
            match expected {
                Some(e) => Some(e@),
                None => None,
            },
            match provided {
                Some(p) => Some(p@),
                None => None,
            },
        ),
{
    match (expected, provided) {
        (Some(e), Some(p)) => same_text(e, p),
        (None, _) => true,
        (Some(_), None) => false,
    }
}

/// Request body for payment initiation (raw pain.001 XML).
#[derive(Debug, Clone)]
pub struct InitiateRequest {
    /// Raw pain.001 XML content.
    pub xml: String,
}

/// Response after successful payment initiation.
#[derive(Debug, Clone)]
pub struct InitiateResponse {
    /// End-to-end ID extracted from pain.001.
    pub end_to_end_id: String,
    /// Audit record ID.
    pub record_id: i64,
    /// Current status.
    pub status: String,
}

/// What an initiation records: the first transfer's end-to-end ID and debtor.
#[derive(Debug, Clone)]
pub struct PaymentIntake {
    pub end_to_end_id: String,
    pub debtor: String,
}

/// Why a payment initiation is refused.
#[derive(Debug, Clone)]
pub enum InitiateError {
    /// The body is not a readable pain.001 message.
    InvalidPain001(Pain001Error),
    /// The message holds no credit transfer.
    NoCreditTransfers,
}

/// The intake of a parsed instruction: its first credit transfer, if it has one.
pub fn intake_from_instruction(instruction: &PaymentInstruction) -> (r: Result<
    PaymentIntake,
    InitiateError,
>)
    ensures
        instruction.transactions@.len() == 0 ==> r matches Err(InitiateError::NoCreditTransfers),
        instruction.transactions@.len() > 0 ==> (r matches Ok(intake)
            && intake.end_to_end_id@ == instruction.transactions@[0].end_to_end_id@
            && intake.debtor@ == instruction.transactions@[0].debtor.name@),
{
    if instruction.transactions.len() == 0 {
        return Err(InitiateError::NoCreditTransfers);
    }
    let transfer = &instruction.transactions[0];
    Ok(
        PaymentIntake {
            end_to_end_id: transfer.end_to_end_id.clone(),
            debtor: transfer.debtor.name.clone(),
        },
    )
}

/// Parses a pain.001 body and takes its first credit transfer.
pub fn payment_intake(xml: &str) -> (r: Result<PaymentIntake, InitiateError>)
    ensures
        r matches Err(InitiateError::InvalidPain001(_)) <==> spec_parse_pain001(xml@) is None,
        r matches Err(InitiateError::NoCreditTransfers) <==> (spec_parse_pain001(xml@) matches Some(
            i,
        ) && i.transactions.len() == 0),
        r is Ok <==> (spec_parse_pain001(xml@) matches Some(i) && i.transactions.len() > 0),
        r is Ok ==> ({
            let first = spec_parse_pain001(xml@)->Some_0.transactions[0];
            &&& r->Ok_0.end_to_end_id@ == first.end_to_end_id
            &&& r->Ok_0.debtor@ == first.debtor_name
        }),
{
    match parse_pain001(xml) {
        Err(e) => Err(InitiateError::InvalidPain001(e)),
        Ok(instruction) => {
            let r = intake_from_instruction(&instruction);
            proof {
                if r is Ok {
                    assert(instruction@.transactions[0] == instruction.transactions@[0]@);
                } else {
                    assert(instruction@.transactions.len() == instruction.transactions@.len());
                }
            }
            r
        },
    }
}

/// The response to an accepted initiation: the payment is `received`.
pub fn initiate_response(end_to_end_id: String, record_id: i64) -> (r: InitiateResponse)
    ensures
        r.end_to_end_id@ == end_to_end_id@,
        r.record_id == record_id,
        r.status@ == "received"@,
{
    InitiateResponse {
        end_to_end_id,
        record_id,
        status: String::from_str(PaymentStatus::Received.as_str()),
    }
}

/// Response for a payment status query.
#[derive(Debug, Clone)]
pub struct PaymentStatusResponse {
    pub record: PaymentRecord,
}

/// Response containing a generated camt.053 bank-to-customer statement.
#[derive(Debug, Clone)]
pub struct StatementResponse {
    /// camt.053 XML content.
    pub xml: String,
    /// Number of entries in the statement.
    pub entry_count: usize,
}

/// The statement entry of an audit record: a zero-amount USD credit booked and valued at
/// the record's creation time, referenced by its end-to-end ID.
pub open spec fn is_statement_entry_of(e: StatementEntry, rec: PaymentRecord) -> bool {
    &&& e.entry_ref@ == rec.end_to_end_id@
    &&& e.end_to_end_id@ == rec.end_to_end_id@
    &&& e.amount.value@ == "0.00"@
    &&& e.amount.currency@ == "USD"@
    &&& e.cd_indicator@ == "CRDT"@
    &&& e.booking_date@ == rec.created_at@
    &&& e.value_date@ == rec.created_at@
    &&& e.remittance_info is None
}

/// In a statement built from audit records, each record shows as an entry booked and
/// valued at the record's creation time, credited, and referenced by the record's
/// end-to-end ID.
pub proof fn law_statement_shows_records(
    account: Seq<char>,
    records: Seq<PaymentRecord>,
    entries: Seq<StatementEntry>,
    creation_time: Seq<char>,
    i: int,
)
    requires
        entries.len() == records.len(),
        forall|j: int| 0 <= j < records.len() ==> is_statement_entry_of(#[trigger] entries[j], records[j]),
        0 <= i < records.len(),
    ensures
        entries[i].value_date@ == records[i].created_at@,
        entries[i].booking_date@ == records[i].created_at@,
        contains_text(
            camt053_xml(spec_statement_id(account), account, entries, creation_time),
            "<ValDt><Dt>"@ + records[i].created_at@ + "</Dt></ValDt>"@,
        ),
        contains_text(
            camt053_xml(spec_statement_id(account), account, entries, creation_time),
            "<BookgDt><Dt>"@ + records[i].created_at@ + "</Dt></BookgDt>"@,
        ),
        contains_text(
            camt053_xml(spec_statement_id(account), account, entries, creation_time),
            "<Refs><EndToEndId>"@ + records[i].end_to_end_id@ + "</EndToEndId></Refs>"@,
        ),
        contains_text(
            camt053_xml(spec_statement_id(account), account, entries, creation_time),
            "<CdtDbtInd>"@ + "CRDT"@ + "</CdtDbtInd>"@,
        ),
{
    assert(is_statement_entry_of(entries[i], records[i]));
    law_camt053_entry_fields(spec_statement_id(account), account, entries, creation_time, i);
}

/// Converts payment records into statement entries, in order.
pub fn statement_entries(records: &[PaymentRecord]) -> (r: Vec<StatementEntry>)
    ensures
        r@.len() == records@.len(),
        forall|i: int| 0 <= i < records@.len() ==> is_statement_entry_of(#[trigger] r@[i], records@[i]),
        forall|i: int|
            0 <= i < records@.len() ==> (#[trigger] r@[i]).value_date@ == records@[i].created_at@
                && r@[i].booking_date@ == records@[i].created_at@
                && r@[i].end_to_end_id@ == records@[i].end_to_end_id@,
{
    let mut out: Vec<StatementEntry> = Vec::new();
    let mut i: usize = 0;
    while i < records.len()
        invariant
            i <= records@.len(),
            out@.len() == i,
            forall|j: int| 0 <= j < i ==> is_statement_entry_of(#[trigger] out@[j], records@[j]),
            forall|j: int|
                0 <= j < i ==> (#[trigger] out@[j]).value_date@ == records@[j].created_at@
                    && out@[j].booking_date@ == records@[j].created_at@
                    && out@[j].end_to_end_id@ == records@[j].end_to_end_id@,
        decreases records.len() - i,
    {
        let rec = &records[i];
        let entry = StatementEntry {
            entry_ref: rec.end_to_end_id.clone(),
            amount: Amount { currency: String::from_str("USD"), value: String::from_str("0.00") },
            cd_indicator: String::from_str("CRDT"),
            booking_date: rec.created_at.clone(),
            value_date: rec.created_at.clone(),
            end_to_end_id: rec.end_to_end_id.clone(),
            remittance_info: None,
        };
        out.push(entry);
        i = i + 1;
    }
    out
}

/// The number of bytes of the account that name a statement: at most eight.
pub open spec fn statement_prefix_len(account: Seq<char>) -> int {
    if encode_utf8(account).len() < 8 {
        encode_utf8(account).len() as int
    } else {
        8
    }
}

/// The statement ID of an account: `STMT-` and the account's first (at most) eight bytes.
pub open spec fn spec_statement_id(account: Seq<char>) -> Seq<char> {
    "STMT-"@ + decode_utf8(encode_utf8(account).subrange(0, statement_prefix_len(account)))
}

/// Names the statement of an account. The prefix must end on a character boundary.
pub fn statement_id(account: &str) -> (r: String)
    requires
        is_char_boundary(encode_utf8(account@), statement_prefix_len(account@)),
    ensures
        r@ == spec_statement_id(account@),
{
    let len = account.as_bytes().len();
    let n: usize = if len < 8 { len } else { 8 };
    assert(account.spec_bytes() == encode_utf8(account@));
    assert(n as int == statement_prefix_len(account@));
    let (prefix, _) = account.split_at(n);
    proof {
        encode_utf8_decode_utf8(prefix@);
    }
    let mut r = String::from_str("STMT-");
    r.append(prefix);
    r
}

/// The camt.053 statement of an account's payment records, created at `creation_time`.
pub fn statement_response(account: &str, records: &[PaymentRecord], creation_time: &str) -> (r:
    StatementResponse)
    requires
        is_char_boundary(encode_utf8(account@), statement_prefix_len(account@)),
    ensures
        r.entry_count == records@.len(),
        exists|entries: Seq<StatementEntry>|
            {
                &&& entries.len() == records@.len()
                &&& forall|i: int|
                    0 <= i < records@.len() ==> is_statement_entry_of(#[trigger] entries[i], records@[i])
                &&& r.xml@ == camt053_xml(
                    spec_statement_id(account@),
                    account@,
                    entries,
                    creation_time@,
                )
            },
{
    let entries = statement_entries(records);
    let entry_count = entries.len();
    let stmt_id = statement_id(account);
    let xml = build_camt053(stmt_id.as_str(), account, entries.as_slice(), creation_time);
    StatementResponse { xml, entry_count }
}

/// Health check response.
#[derive(Debug, Clone)]
pub struct HealthResponse {
    /// Service status.
    pub status: String,
    /// Service version.
    pub version: String,
}

/// The health of a running service of the given version: `ok`.
pub fn health_response(version: &str) -> (r: HealthResponse)
    ensures
        r.status@ == "ok"@,
        r.version@ == version@,
{
    HealthResponse { status: String::from_str("ok"), version: String::from_str(version) }
}

} // verus!
