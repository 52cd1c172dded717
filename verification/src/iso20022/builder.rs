//! ISO 20022 XML message builder.
//!
//! Builds outbound XML messages: pacs.008, camt.053, camt.054.
use crate::iso20022::types::{NotificationEntry, SettlementData, StatementEntry};
use vstd::prelude::*;
use vstd::string::*;
use vstd::utf8::*;

verus! {

/// An optional XML element: `open`, the value and `close` when present, nothing otherwise.
pub open spec fn optional_element(value: Option<String>, open: Seq<char>, close: Seq<char>) -> Seq<char> {
    match value {
        Some(v) => open + v@ + close,
        None => Seq::empty(),
    }
}

/// Appends the optional element to `out`.
fn append_optional(out: &mut String, value: &Option<String>, open: &str, close: &str)
    ensures
        final(out)@ == old(out)@ + optional_element(*value, open@, close@),
{
    match value {
        Some(v) => {
            out.append(open);
            out.append(v.as_str());
            out.append(close);
        },
        None => {
            assert(old(out)@ + Seq::<char>::empty() =~= old(out)@);
        },
    }
}

/// The settlement date: the characters of the first ten bytes (`YYYY-MM-DD`) of a
/// settlement timestamp.
pub open spec fn settlement_date(settlement_time: Seq<char>) -> Seq<char> {
    decode_utf8(encode_utf8(settlement_time).subrange(0, 10))
}

/// The pacs.008 document for a settlement.
pub open spec fn pacs008_xml(settlement: SettlementData) -> Seq<char> {
    "<?xml version=\"1.0\" encoding=\"UTF-8\"?>\n<Document xmlns=\"urn:iso:std:iso:20022:tech:xsd:pacs.008.001.02\">\n  <FIToFICstmrCdtTrf>\n    <GrpHdr>\n      <MsgId>PACS008-"@
        + settlement.instruction.end_to_end_id@
        + "</MsgId>\n      <CreDtTm>"@
        + settlement.settlement_time@
        + "</CreDtTm>\n      <NbOfTxs>1</NbOfTxs>\n      <SttlmInf>\n        <SttlmMtd>CLRG</SttlmMtd>\n      </SttlmInf>\n      <InstgAgt>\n        <FinInstnId><BICFI>"@
        + settlement.instructing_agent@
        + "</BICFI></FinInstnId>\n      </InstgAgt>\n      <InstdAgt>\n        <FinInstnId><BICFI>"@
        + settlement.instructed_agent@
        + "</BICFI></FinInstnId>\n      </InstdAgt>\n    </GrpHdr>\n    <CdtTrfTxInf>\n      <PmtId>\n        <EndToEndId>"@
        + settlement.instruction.end_to_end_id@
        + "</EndToEndId>\n        <TxId>"@
        + settlement.chain_tx_hash@
        + "</TxId>\n      </PmtId>\n      <IntrBkSttlmAmt Ccy=\""@
        + settlement.instruction.amount.currency@
        + "\">"@
        + settlement.instruction.amount.value@
        + "</IntrBkSttlmAmt>\n      <IntrBkSttlmDt>"@
        + settlement_date(settlement.settlement_time@)
        + "</IntrBkSttlmDt>\n      <Dbtr>\n        <Nm>"@
        + settlement.instruction.debtor.name@
        + "</Nm>\n      </Dbtr>\n      <DbtrAcct>\n        <Id><Othr><Id>"@
        + settlement.instruction.debtor_account.id@
        + "</Id></Othr></Id>\n      </DbtrAcct>\n      <Cdtr>\n        <Nm>"@
        + settlement.instruction.creditor.name@
        + "</Nm>\n      </Cdtr>\n      <CdtrAcct>\n        <Id><Othr><Id>"@
        + settlement.instruction.creditor_account.id@
        + "</Id></Othr></Id>\n      </CdtrAcct>"@
        + optional_element(settlement.instruction.purpose_code, "\n      <Purp><Cd>"@, "</Cd></Purp>"@)
        + optional_element(settlement.instruction.remittance_info, "\n      <RmtInf><Ustrd>"@, "</Ustrd></RmtInf>"@)
        + "\n    </CdtTrfTxInf>\n  </FIToFICstmrCdtTrf>\n</Document>"@
}

/// Build a pacs.008 (FI-to-FI Customer Credit Transfer) XML message.
///
/// The settlement date is the first ten bytes of the settlement timestamp, which must
/// end on a character boundary there.
pub fn build_pacs008(settlement: &SettlementData) -> (r: String)
    requires
        is_char_boundary(encode_utf8(settlement.settlement_time@), 10),
    ensures
        r@ == pacs008_xml(*settlement),
{
    let (date, _) = settlement.settlement_time.as_str().split_at(10);
    proof {
        encode_utf8_decode_utf8(date@);
    }
    let mut out = String::from_str("<?xml version=\"1.0\" encoding=\"UTF-8\"?>\n<Document xmlns=\"urn:iso:std:iso:20022:tech:xsd:pacs.008.001.02\">\n  <FIToFICstmrCdtTrf>\n    <GrpHdr>\n      <MsgId>PACS008-");
    out.append(settlement.instruction.end_to_end_id.as_str());
    out.append("</MsgId>\n      <CreDtTm>");
    out.append(settlement.settlement_time.as_str());
    out.append("</CreDtTm>\n      <NbOfTxs>1</NbOfTxs>\n      <SttlmInf>\n        <SttlmMtd>CLRG</SttlmMtd>\n      </SttlmInf>\n      <InstgAgt>\n        <FinInstnId><BICFI>");
    out.append(settlement.instructing_agent.as_str());
    out.append("</BICFI></FinInstnId>\n      </InstgAgt>\n      <InstdAgt>\n        <FinInstnId><BICFI>");
    out.append(settlement.instructed_agent.as_str());
    out.append("</BICFI></FinInstnId>\n      </InstdAgt>\n    </GrpHdr>\n    <CdtTrfTxInf>\n      <PmtId>\n        <EndToEndId>");
    out.append(settlement.instruction.end_to_end_id.as_str());
    out.append("</EndToEndId>\n        <TxId>");
    out.append(settlement.chain_tx_hash.as_str());
    out.append("</TxId>\n      </PmtId>\n      <IntrBkSttlmAmt Ccy=\"");
    out.append(settlement.instruction.amount.currency.as_str());
    out.append("\">");
    out.append(settlement.instruction.amount.value.as_str());
    out.append("</IntrBkSttlmAmt>\n      <IntrBkSttlmDt>");
    out.append(date);
    out.append("</IntrBkSttlmDt>\n      <Dbtr>\n        <Nm>");
    out.append(settlement.instruction.debtor.name.as_str());
    out.append("</Nm>\n      </Dbtr>\n      <DbtrAcct>\n        <Id><Othr><Id>");
    out.append(settlement.instruction.debtor_account.id.as_str());
    out.append("</Id></Othr></Id>\n      </DbtrAcct>\n      <Cdtr>\n        <Nm>");
    out.append(settlement.instruction.creditor.name.as_str());
    out.append("</Nm>\n      </Cdtr>\n      <CdtrAcct>\n        <Id><Othr><Id>");
    out.append(settlement.instruction.creditor_account.id.as_str());
    out.append("</Id></Othr></Id>\n      </CdtrAcct>");
    append_optional(&mut out, &settlement.instruction.purpose_code, "\n      <Purp><Cd>", "</Cd></Purp>");
    append_optional(&mut out, &settlement.instruction.remittance_info, "\n      <RmtInf><Ustrd>", "</Ustrd></RmtInf>");
    out.append("\n    </CdtTrfTxInf>\n  </FIToFICstmrCdtTrf>\n</Document>");
    out
}

/// The `<Ntry>` element of a camt.053 statement entry.
pub open spec fn statement_entry_xml(entry: StatementEntry) -> Seq<char> {
    "\n      <Ntry>\n        <NtryRef>"@
        + entry.entry_ref@
        + "</NtryRef>\n        <Amt Ccy=\""@
        + entry.amount.currency@
        + "\">"@
        + entry.amount.value@
        + "</Amt>\n        <CdtDbtInd>"@
        + entry.cd_indicator@
        + "</CdtDbtInd>\n        <BookgDt><Dt>"@
        + entry.booking_date@
        + "</Dt></BookgDt>\n        <ValDt><Dt>"@
        + entry.value_date@
        + "</Dt></ValDt>\n        <NtryDtls>\n          <TxDtls>\n            <Refs><EndToEndId>"@
        + entry.end_to_end_id@
        + "</EndToEndId></Refs>"@
        + optional_element(entry.remittance_info, "\n            <RmtInf><Ustrd>"@, "</Ustrd></RmtInf>"@)
        + "\n          </TxDtls>\n        </NtryDtls>\n      </Ntry>"@
}

/// The `<Ntry>` elements of the entries, in order.
pub open spec fn statement_entries_xml(entries: Seq<StatementEntry>) -> Seq<char>
    decreases entries.len(),
{
    if entries.len() == 0 {
        Seq::empty()
    } else {
        statement_entries_xml(entries.drop_last()) + statement_entry_xml(entries.last())
    }
}

/// Renders one camt.053 entry.
fn build_statement_entry(entry: &StatementEntry) -> (r: String)
    ensures
        r@ == statement_entry_xml(*entry),
{
    let mut out = String::from_str("\n      <Ntry>\n        <NtryRef>");
    out.append(entry.entry_ref.as_str());
    out.append("</NtryRef>\n        <Amt Ccy=\"");
    out.append(entry.amount.currency.as_str());
    out.append("\">");
    out.append(entry.amount.value.as_str());
    out.append("</Amt>\n        <CdtDbtInd>");
    out.append(entry.cd_indicator.as_str());
    out.append("</CdtDbtInd>\n        <BookgDt><Dt>");
    out.append(entry.booking_date.as_str());
    out.append("</Dt></BookgDt>\n        <ValDt><Dt>");
    out.append(entry.value_date.as_str());
    out.append("</Dt></ValDt>\n        <NtryDtls>\n          <TxDtls>\n            <Refs><EndToEndId>");
    out.append(entry.end_to_end_id.as_str());
    out.append("</EndToEndId></Refs>");
    append_optional(&mut out, &entry.remittance_info, "\n            <RmtInf><Ustrd>", "</Ustrd></RmtInf>");
    out.append("\n          </TxDtls>\n        </NtryDtls>\n      </Ntry>");
    out
}

/// The camt.053 document for a statement.
pub open spec fn camt053_xml(
    statement_id: Seq<char>,
    account_id: Seq<char>,
    entries: Seq<StatementEntry>,
    creation_time: Seq<char>,
) -> Seq<char> {
    "<?xml version=\"1.0\" encoding=\"UTF-8\"?>\n<Document xmlns=\"urn:iso:std:iso:20022:tech:xsd:camt.053.001.02\">\n  <BkToCstmrStmt>\n    <GrpHdr>\n      <MsgId>"@
        + statement_id
        + "</MsgId>\n      <CreDtTm>"@
        + creation_time
        + "</CreDtTm>\n    </GrpHdr>\n    <Stmt>\n      <Id>"@
        + statement_id
        + "</Id>\n      <Acct>\n        <Id><Othr><Id>"@
        + account_id
        + "</Id></Othr></Id>\n      </Acct>"@
        + statement_entries_xml(entries)
        + "\n    </Stmt>\n  </BkToCstmrStmt>\n</Document>"@
}

/// Build a camt.053 (Bank-to-Customer Statement) XML message.
pub fn build_camt053(
    statement_id: &str,
    account_id: &str,
    entries: &[StatementEntry],
    creation_time: &str,
) -> (r: String)
    ensures
        r@ == camt053_xml(statement_id@, account_id@, entries@, creation_time@),
{
    let mut entries_xml = String::new();
    let mut i: usize = 0;
    while i < entries.len()
        invariant
            i <= entries@.len(),
            entries_xml@ == statement_entries_xml(entries@.take(i as int)),
        decreases entries.len() - i,
    {
        let rendered = build_statement_entry(&entries[i]);
        entries_xml.append(rendered.as_str());
        proof {
            assert(entries@.take(i + 1).drop_last() =~= entries@.take(i as int));
        }
        i = i + 1;
    }
    assert(entries@.take(entries@.len() as int) =~= entries@);
    let mut out = String::from_str("<?xml version=\"1.0\" encoding=\"UTF-8\"?>\n<Document xmlns=\"urn:iso:std:iso:20022:tech:xsd:camt.053.001.02\">\n  <BkToCstmrStmt>\n    <GrpHdr>\n      <MsgId>");
    out.append(statement_id);
    out.append("</MsgId>\n      <CreDtTm>");
    out.append(creation_time);
    out.append("</CreDtTm>\n    </GrpHdr>\n    <Stmt>\n      <Id>");
    out.append(statement_id);
    out.append("</Id>\n      <Acct>\n        <Id><Othr><Id>");
    out.append(account_id);
    out.append("</Id></Othr></Id>\n      </Acct>");
    out.append(entries_xml.as_str());
    out.append("\n    </Stmt>\n  </BkToCstmrStmt>\n</Document>");
    out
}

/// The camt.054 document for a notification.
pub open spec fn camt054_xml(notification: NotificationEntry, creation_time: Seq<char>) -> Seq<char> {
    "<?xml version=\"1.0\" encoding=\"UTF-8\"?>\n<Document xmlns=\"urn:iso:std:iso:20022:tech:xsd:camt.054.001.02\">\n  <BkToCstmrDbtCdtNtfctn>\n    <GrpHdr>\n      <MsgId>NTFCTN-"@
        + notification.ntfctn_id@
        + "</MsgId>\n      <CreDtTm>"@
        + creation_time
        + "</CreDtTm>\n    </GrpHdr>\n    <Ntfctn>\n      <Id>"@
        + notification.ntfctn_id@
        + "</Id>\n      <Acct>\n        <Id><Othr><Id>"@
        + notification.account_id@
        + "</Id></Othr></Id>\n      </Acct>\n      <Ntry>\n        <NtryRef>"@
        + notification.entry.entry_ref@
        + "</NtryRef>\n        <Amt Ccy=\""@
        + notification.entry.amount.currency@
        + "\">"@
        + notification.entry.amount.value@
        + "</Amt>\n        <CdtDbtInd>"@
        + notification.entry.cd_indicator@
        + "</CdtDbtInd>\n        <BookgDt><Dt>"@
        + notification.entry.booking_date@
        + "</Dt></BookgDt>\n        <ValDt><Dt>"@
        + notification.entry.value_date@
        + "</Dt></ValDt>\n        <NtryDtls>\n          <TxDtls>\n            <Refs><EndToEndId>"@
        + notification.entry.end_to_end_id@
        + "</EndToEndId></Refs>\n          </TxDtls>\n        </NtryDtls>\n      </Ntry>\n    </Ntfctn>\n  </BkToCstmrDbtCdtNtfctn>\n</Document>"@
}

/// Build a camt.054 (Bank-to-Customer Debit/Credit Notification) XML message.
pub fn build_camt054(notification: &NotificationEntry, creation_time: &str) -> (r: String)
    ensures
        r@ == camt054_xml(*notification, creation_time@),
{
    let mut out = String::from_str("<?xml version=\"1.0\" encoding=\"UTF-8\"?>\n<Document xmlns=\"urn:iso:std:iso:20022:tech:xsd:camt.054.001.02\">\n  <BkToCstmrDbtCdtNtfctn>\n    <GrpHdr>\n      <MsgId>NTFCTN-");
    out.append(notification.ntfctn_id.as_str());
    out.append("</MsgId>\n      <CreDtTm>");
    out.append(creation_time);
    out.append("</CreDtTm>\n    </GrpHdr>\n    <Ntfctn>\n      <Id>");
    out.append(notification.ntfctn_id.as_str());
    out.append("</Id>\n      <Acct>\n        <Id><Othr><Id>");
    out.append(notification.account_id.as_str());
    out.append("</Id></Othr></Id>\n      </Acct>\n      <Ntry>\n        <NtryRef>");
    out.append(notification.entry.entry_ref.as_str());
    out.append("</NtryRef>\n        <Amt Ccy=\"");
    out.append(notification.entry.amount.currency.as_str());
    out.append("\">");
    out.append(notification.entry.amount.value.as_str());
    out.append("</Amt>\n        <CdtDbtInd>");
    out.append(notification.entry.cd_indicator.as_str());
    out.append("</CdtDbtInd>\n        <BookgDt><Dt>");
    out.append(notification.entry.booking_date.as_str());
    out.append("</Dt></BookgDt>\n        <ValDt><Dt>");
    out.append(notification.entry.value_date.as_str());
    out.append("</Dt></ValDt>\n        <NtryDtls>\n          <TxDtls>\n            <Refs><EndToEndId>");
    out.append(notification.entry.end_to_end_id.as_str());
    out.append("</EndToEndId></Refs>\n          </TxDtls>\n        </NtryDtls>\n      </Ntry>\n    </Ntfctn>\n  </BkToCstmrDbtCdtNtfctn>\n</Document>");
    out
}


/// `needle` occurs in `hay`.
pub open spec fn contains_text(hay: Seq<char>, needle: Seq<char>) -> bool {
    exists|i: int|
        0 <= i && i + needle.len() <= hay.len() && #[trigger] hay.subrange(i, i + needle.len())
            == needle
}

/// `q + c + r` occurs where `c` stands between a text ending in `q` and one starting with
/// `r`.
pub proof fn lemma_contains_joined(
    a: Seq<char>,
    pre: Seq<char>,
    q: Seq<char>,
    c: Seq<char>,
    r: Seq<char>,
    post: Seq<char>,
    left: Seq<char>,
    right: Seq<char>,
)
    requires
        left == pre + q,
        right == r + post,
    ensures
        contains_text(a + left + c + right, q + c + r),
{
    let i: int = (a.len() + pre.len()) as int;
    let h = a + left + c + right;
    let n = q + c + r;
    assert(h.subrange(i, (i + n.len()) as int) =~= n);
}

/// A text occurs in any text that holds it between two others.
pub proof fn lemma_contains_middle(p: Seq<char>, needle: Seq<char>, s: Seq<char>)
    ensures
        contains_text(p + needle + s, needle),
{
    let h = p + needle + s;
    assert(h.subrange(p.len() as int, (p.len() + needle.len()) as int) =~= needle);
}

/// What occurs in a text occurs in any extension of it on the right.
pub proof fn lemma_contains_left(a: Seq<char>, b: Seq<char>, needle: Seq<char>)
    requires
        contains_text(a, needle),
    ensures
        contains_text(a + b, needle),
{
    let i = choose|i: int|
        0 <= i && i + needle.len() <= a.len() && #[trigger] a.subrange(i, i + needle.len())
            == needle;
    assert((a + b).subrange(i, i + needle.len()) =~= a.subrange(i, i + needle.len()));
}

/// What occurs in a text occurs in any extension of it on the left.
pub proof fn lemma_contains_right(a: Seq<char>, b: Seq<char>, needle: Seq<char>)
    requires
        contains_text(b, needle),
    ensures
        contains_text(a + b, needle),
{
    let i = choose|i: int|
        0 <= i && i + needle.len() <= b.len() && #[trigger] b.subrange(i, i + needle.len())
            == needle;
    assert((a + b).subrange(a.len() + i, a.len() + i + needle.len()) =~= b.subrange(
        i,
        i + needle.len(),
    ));
}

/// Occurrence is transitive.
pub proof fn lemma_contains_trans(a: Seq<char>, b: Seq<char>, c: Seq<char>)
    requires
        contains_text(a, b),
        contains_text(b, c),
    ensures
        contains_text(a, c),
{
    let i = choose|i: int|
        0 <= i && i + b.len() <= a.len() && #[trigger] a.subrange(i, i + b.len()) == b;
    let j = choose|j: int|
        0 <= j && j + c.len() <= b.len() && #[trigger] b.subrange(j, j + c.len()) == c;
    assert(a.subrange(i + j, i + j + c.len()) =~= b.subrange(j, j + c.len()));
}

/// A camt.053 entry shows its own credit/debit indicator, booking and value dates and
/// end-to-end ID, each in its element.
proof fn lemma_entry_shows_indicator(entry: StatementEntry)
    ensures
        contains_text(statement_entry_xml(entry), "<CdtDbtInd>"@ + entry.cd_indicator@ + "</CdtDbtInd>"@),
{
    let a = "\n      <Ntry>\n        <NtryRef>"@ + entry.entry_ref@ + "</NtryRef>\n        <Amt Ccy=\""@ + entry.amount.currency@ + "\">"@ + entry.amount.value@;
    assert("</Amt>\n        <CdtDbtInd>"@ =~= "</Amt>\n        "@ + "<CdtDbtInd>"@) by {
        reveal_strlit("</Amt>\n        <CdtDbtInd>");
        reveal_strlit("</Amt>\n        ");
        reveal_strlit("<CdtDbtInd>");
    }
    assert("</CdtDbtInd>\n        <BookgDt><Dt>"@ =~= "</CdtDbtInd>"@ + "\n        <BookgDt><Dt>"@) by {
        reveal_strlit("</CdtDbtInd>\n        <BookgDt><Dt>");
        reveal_strlit("</CdtDbtInd>");
        reveal_strlit("\n        <BookgDt><Dt>");
    }
    lemma_contains_joined(a, "</Amt>\n        "@, "<CdtDbtInd>"@, entry.cd_indicator@, "</CdtDbtInd>"@, "\n        <BookgDt><Dt>"@, "</Amt>\n        <CdtDbtInd>"@, "</CdtDbtInd>\n        <BookgDt><Dt>"@);
    lemma_contains_left(a + "</Amt>\n        <CdtDbtInd>"@ + entry.cd_indicator@ + "</CdtDbtInd>\n        <BookgDt><Dt>"@, entry.booking_date@, "<CdtDbtInd>"@ + entry.cd_indicator@ + "</CdtDbtInd>"@);
    lemma_contains_left(a + "</Amt>\n        <CdtDbtInd>"@ + entry.cd_indicator@ + "</CdtDbtInd>\n        <BookgDt><Dt>"@ + entry.booking_date@, "</Dt></BookgDt>\n        <ValDt><Dt>"@, "<CdtDbtInd>"@ + entry.cd_indicator@ + "</CdtDbtInd>"@);
    lemma_contains_left(a + "</Amt>\n        <CdtDbtInd>"@ + entry.cd_indicator@ + "</CdtDbtInd>\n        <BookgDt><Dt>"@ + entry.booking_date@ + "</Dt></BookgDt>\n        <ValDt><Dt>"@, entry.value_date@, "<CdtDbtInd>"@ + entry.cd_indicator@ + "</CdtDbtInd>"@);
    lemma_contains_left(a + "</Amt>\n        <CdtDbtInd>"@ + entry.cd_indicator@ + "</CdtDbtInd>\n        <BookgDt><Dt>"@ + entry.booking_date@ + "</Dt></BookgDt>\n        <ValDt><Dt>"@ + entry.value_date@, "</Dt></ValDt>\n        <NtryDtls>\n          <TxDtls>\n            <Refs><EndToEndId>"@, "<CdtDbtInd>"@ + entry.cd_indicator@ + "</CdtDbtInd>"@);
    lemma_contains_left(a + "</Amt>\n        <CdtDbtInd>"@ + entry.cd_indicator@ + "</CdtDbtInd>\n        <BookgDt><Dt>"@ + entry.booking_date@ + "</Dt></BookgDt>\n        <ValDt><Dt>"@ + entry.value_date@ + "</Dt></ValDt>\n        <NtryDtls>\n          <TxDtls>\n            <Refs><EndToEndId>"@, entry.end_to_end_id@, "<CdtDbtInd>"@ + entry.cd_indicator@ + "</CdtDbtInd>"@);
    lemma_contains_left(a + "</Amt>\n        <CdtDbtInd>"@ + entry.cd_indicator@ + "</CdtDbtInd>\n        <BookgDt><Dt>"@ + entry.booking_date@ + "</Dt></BookgDt>\n        <ValDt><Dt>"@ + entry.value_date@ + "</Dt></ValDt>\n        <NtryDtls>\n          <TxDtls>\n            <Refs><EndToEndId>"@ + entry.end_to_end_id@, "</EndToEndId></Refs>"@, "<CdtDbtInd>"@ + entry.cd_indicator@ + "</CdtDbtInd>"@);
    lemma_contains_left(a + "</Amt>\n        <CdtDbtInd>"@ + entry.cd_indicator@ + "</CdtDbtInd>\n        <BookgDt><Dt>"@ + entry.booking_date@ + "</Dt></BookgDt>\n        <ValDt><Dt>"@ + entry.value_date@ + "</Dt></ValDt>\n        <NtryDtls>\n          <TxDtls>\n            <Refs><EndToEndId>"@ + entry.end_to_end_id@ + "</EndToEndId></Refs>"@, optional_element(entry.remittance_info, "\n            <RmtInf><Ustrd>"@, "</Ustrd></RmtInf>"@), "<CdtDbtInd>"@ + entry.cd_indicator@ + "</CdtDbtInd>"@);
    lemma_contains_left(a + "</Amt>\n        <CdtDbtInd>"@ + entry.cd_indicator@ + "</CdtDbtInd>\n        <BookgDt><Dt>"@ + entry.booking_date@ + "</Dt></BookgDt>\n        <ValDt><Dt>"@ + entry.value_date@ + "</Dt></ValDt>\n        <NtryDtls>\n          <TxDtls>\n            <Refs><EndToEndId>"@ + entry.end_to_end_id@ + "</EndToEndId></Refs>"@ + optional_element(entry.remittance_info, "\n            <RmtInf><Ustrd>"@, "</Ustrd></RmtInf>"@), "\n          </TxDtls>\n        </NtryDtls>\n      </Ntry>"@, "<CdtDbtInd>"@ + entry.cd_indicator@ + "</CdtDbtInd>"@);
}

proof fn lemma_entry_shows_booking_date(entry: StatementEntry)
    ensures
        contains_text(statement_entry_xml(entry), "<BookgDt><Dt>"@ + entry.booking_date@ + "</Dt></BookgDt>"@),
{
    let a = "\n      <Ntry>\n        <NtryRef>"@ + entry.entry_ref@ + "</NtryRef>\n        <Amt Ccy=\""@ + entry.amount.currency@ + "\">"@ + entry.amount.value@ + "</Amt>\n        <CdtDbtInd>"@ + entry.cd_indicator@;
    assert("</CdtDbtInd>\n        <BookgDt><Dt>"@ =~= "</CdtDbtInd>\n        "@ + "<BookgDt><Dt>"@) by {
        reveal_strlit("</CdtDbtInd>\n        <BookgDt><Dt>");
        reveal_strlit("</CdtDbtInd>\n        ");
        reveal_strlit("<BookgDt><Dt>");
    }
    assert("</Dt></BookgDt>\n        <ValDt><Dt>"@ =~= "</Dt></BookgDt>"@ + "\n        <ValDt><Dt>"@) by {
        reveal_strlit("</Dt></BookgDt>\n        <ValDt><Dt>");
        reveal_strlit("</Dt></BookgDt>");
        reveal_strlit("\n        <ValDt><Dt>");
    }
    lemma_contains_joined(a, "</CdtDbtInd>\n        "@, "<BookgDt><Dt>"@, entry.booking_date@, "</Dt></BookgDt>"@, "\n        <ValDt><Dt>"@, "</CdtDbtInd>\n        <BookgDt><Dt>"@, "</Dt></BookgDt>\n        <ValDt><Dt>"@);
    lemma_contains_left(a + "</CdtDbtInd>\n        <BookgDt><Dt>"@ + entry.booking_date@ + "</Dt></BookgDt>\n        <ValDt><Dt>"@, entry.value_date@, "<BookgDt><Dt>"@ + entry.booking_date@ + "</Dt></BookgDt>"@);
    lemma_contains_left(a + "</CdtDbtInd>\n        <BookgDt><Dt>"@ + entry.booking_date@ + "</Dt></BookgDt>\n        <ValDt><Dt>"@ + entry.value_date@, "</Dt></ValDt>\n        <NtryDtls>\n          <TxDtls>\n            <Refs><EndToEndId>"@, "<BookgDt><Dt>"@ + entry.booking_date@ + "</Dt></BookgDt>"@);
    lemma_contains_left(a + "</CdtDbtInd>\n        <BookgDt><Dt>"@ + entry.booking_date@ + "</Dt></BookgDt>\n        <ValDt><Dt>"@ + entry.value_date@ + "</Dt></ValDt>\n        <NtryDtls>\n          <TxDtls>\n            <Refs><EndToEndId>"@, entry.end_to_end_id@, "<BookgDt><Dt>"@ + entry.booking_date@ + "</Dt></BookgDt>"@);
    lemma_contains_left(a + "</CdtDbtInd>\n        <BookgDt><Dt>"@ + entry.booking_date@ + "</Dt></BookgDt>\n        <ValDt><Dt>"@ + entry.value_date@ + "</Dt></ValDt>\n        <NtryDtls>\n          <TxDtls>\n            <Refs><EndToEndId>"@ + entry.end_to_end_id@, "</EndToEndId></Refs>"@, "<BookgDt><Dt>"@ + entry.booking_date@ + "</Dt></BookgDt>"@);
    lemma_contains_left(a + "</CdtDbtInd>\n        <BookgDt><Dt>"@ + entry.booking_date@ + "</Dt></BookgDt>\n        <ValDt><Dt>"@ + entry.value_date@ + "</Dt></ValDt>\n        <NtryDtls>\n          <TxDtls>\n            <Refs><EndToEndId>"@ + entry.end_to_end_id@ + "</EndToEndId></Refs>"@, optional_element(entry.remittance_info, "\n            <RmtInf><Ustrd>"@, "</Ustrd></RmtInf>"@), "<BookgDt><Dt>"@ + entry.booking_date@ + "</Dt></BookgDt>"@);
    lemma_contains_left(a + "</CdtDbtInd>\n        <BookgDt><Dt>"@ + entry.booking_date@ + "</Dt></BookgDt>\n        <ValDt><Dt>"@ + entry.value_date@ + "</Dt></ValDt>\n        <NtryDtls>\n          <TxDtls>\n            <Refs><EndToEndId>"@ + entry.end_to_end_id@ + "</EndToEndId></Refs>"@ + optional_element(entry.remittance_info, "\n            <RmtInf><Ustrd>"@, "</Ustrd></RmtInf>"@), "\n          </TxDtls>\n        </NtryDtls>\n      </Ntry>"@, "<BookgDt><Dt>"@ + entry.booking_date@ + "</Dt></BookgDt>"@);
}

proof fn lemma_entry_shows_value_date(entry: StatementEntry)
    ensures
        contains_text(statement_entry_xml(entry), "<ValDt><Dt>"@ + entry.value_date@ + "</Dt></ValDt>"@),
{
    let a = "\n      <Ntry>\n        <NtryRef>"@ + entry.entry_ref@ + "</NtryRef>\n        <Amt Ccy=\""@ + entry.amount.currency@ + "\">"@ + entry.amount.value@ + "</Amt>\n        <CdtDbtInd>"@ + entry.cd_indicator@ + "</CdtDbtInd>\n        <BookgDt><Dt>"@ + entry.booking_date@;
    assert("</Dt></BookgDt>\n        <ValDt><Dt>"@ =~= "</Dt></BookgDt>\n        "@ + "<ValDt><Dt>"@) by {
        reveal_strlit("</Dt></BookgDt>\n        <ValDt><Dt>");
        reveal_strlit("</Dt></BookgDt>\n        ");
        reveal_strlit("<ValDt><Dt>");
    }
    assert("</Dt></ValDt>\n        <NtryDtls>\n          <TxDtls>\n            <Refs><EndToEndId>"@ =~= "</Dt></ValDt>"@ + "\n        <NtryDtls>\n          <TxDtls>\n            <Refs><EndToEndId>"@) by {
        reveal_strlit("</Dt></ValDt>\n        <NtryDtls>\n          <TxDtls>\n            <Refs><EndToEndId>");
        reveal_strlit("</Dt></ValDt>");
        reveal_strlit("\n        <NtryDtls>\n          <TxDtls>\n            <Refs><EndToEndId>");
    }
    lemma_contains_joined(a, "</Dt></BookgDt>\n        "@, "<ValDt><Dt>"@, entry.value_date@, "</Dt></ValDt>"@, "\n        <NtryDtls>\n          <TxDtls>\n            <Refs><EndToEndId>"@, "</Dt></BookgDt>\n        <ValDt><Dt>"@, "</Dt></ValDt>\n        <NtryDtls>\n          <TxDtls>\n            <Refs><EndToEndId>"@);
    lemma_contains_left(a + "</Dt></BookgDt>\n        <ValDt><Dt>"@ + entry.value_date@ + "</Dt></ValDt>\n        <NtryDtls>\n          <TxDtls>\n            <Refs><EndToEndId>"@, entry.end_to_end_id@, "<ValDt><Dt>"@ + entry.value_date@ + "</Dt></ValDt>"@);
    lemma_contains_left(a + "</Dt></BookgDt>\n        <ValDt><Dt>"@ + entry.value_date@ + "</Dt></ValDt>\n        <NtryDtls>\n          <TxDtls>\n            <Refs><EndToEndId>"@ + entry.end_to_end_id@, "</EndToEndId></Refs>"@, "<ValDt><Dt>"@ + entry.value_date@ + "</Dt></ValDt>"@);
    lemma_contains_left(a + "</Dt></BookgDt>\n        <ValDt><Dt>"@ + entry.value_date@ + "</Dt></ValDt>\n        <NtryDtls>\n          <TxDtls>\n            <Refs><EndToEndId>"@ + entry.end_to_end_id@ + "</EndToEndId></Refs>"@, optional_element(entry.remittance_info, "\n            <RmtInf><Ustrd>"@, "</Ustrd></RmtInf>"@), "<ValDt><Dt>"@ + entry.value_date@ + "</Dt></ValDt>"@);
    lemma_contains_left(a + "</Dt></BookgDt>\n        <ValDt><Dt>"@ + entry.value_date@ + "</Dt></ValDt>\n        <NtryDtls>\n          <TxDtls>\n            <Refs><EndToEndId>"@ + entry.end_to_end_id@ + "</EndToEndId></Refs>"@ + optional_element(entry.remittance_info, "\n            <RmtInf><Ustrd>"@, "</Ustrd></RmtInf>"@), "\n          </TxDtls>\n        </NtryDtls>\n      </Ntry>"@, "<ValDt><Dt>"@ + entry.value_date@ + "</Dt></ValDt>"@);
}

proof fn lemma_entry_shows_end_to_end_id(entry: StatementEntry)
    ensures
        contains_text(statement_entry_xml(entry), "<Refs><EndToEndId>"@ + entry.end_to_end_id@ + "</EndToEndId></Refs>"@),
{
    let a = "\n      <Ntry>\n        <NtryRef>"@ + entry.entry_ref@ + "</NtryRef>\n        <Amt Ccy=\""@ + entry.amount.currency@ + "\">"@ + entry.amount.value@ + "</Amt>\n        <CdtDbtInd>"@ + entry.cd_indicator@ + "</CdtDbtInd>\n        <BookgDt><Dt>"@ + entry.booking_date@ + "</Dt></BookgDt>\n        <ValDt><Dt>"@ + entry.value_date@;
    assert("</Dt></ValDt>\n        <NtryDtls>\n          <TxDtls>\n            <Refs><EndToEndId>"@ =~= "</Dt></ValDt>\n        <NtryDtls>\n          <TxDtls>\n            "@ + "<Refs><EndToEndId>"@) by {
        reveal_strlit("</Dt></ValDt>\n        <NtryDtls>\n          <TxDtls>\n            <Refs><EndToEndId>");
        reveal_strlit("</Dt></ValDt>\n        <NtryDtls>\n          <TxDtls>\n            ");
        reveal_strlit("<Refs><EndToEndId>");
    }
    assert("</EndToEndId></Refs>"@ =~= "</EndToEndId></Refs>"@ + Seq::<char>::empty());
    lemma_contains_joined(a, "</Dt></ValDt>\n        <NtryDtls>\n          <TxDtls>\n            "@, "<Refs><EndToEndId>"@, entry.end_to_end_id@, "</EndToEndId></Refs>"@, Seq::<char>::empty(), "</Dt></ValDt>\n        <NtryDtls>\n          <TxDtls>\n            <Refs><EndToEndId>"@, "</EndToEndId></Refs>"@);
    lemma_contains_left(a + "</Dt></ValDt>\n        <NtryDtls>\n          <TxDtls>\n            <Refs><EndToEndId>"@ + entry.end_to_end_id@ + "</EndToEndId></Refs>"@, optional_element(entry.remittance_info, "\n            <RmtInf><Ustrd>"@, "</Ustrd></RmtInf>"@), "<Refs><EndToEndId>"@ + entry.end_to_end_id@ + "</EndToEndId></Refs>"@);
    lemma_contains_left(a + "</Dt></ValDt>\n        <NtryDtls>\n          <TxDtls>\n            <Refs><EndToEndId>"@ + entry.end_to_end_id@ + "</EndToEndId></Refs>"@ + optional_element(entry.remittance_info, "\n            <RmtInf><Ustrd>"@, "</Ustrd></RmtInf>"@), "\n          </TxDtls>\n        </NtryDtls>\n      </Ntry>"@, "<Refs><EndToEndId>"@ + entry.end_to_end_id@ + "</EndToEndId></Refs>"@);
}

pub proof fn law_statement_entry_fields(entry: StatementEntry)
    ensures
        contains_text(statement_entry_xml(entry), "<CdtDbtInd>"@ + entry.cd_indicator@ + "</CdtDbtInd>"@),
        contains_text(statement_entry_xml(entry), "<BookgDt><Dt>"@ + entry.booking_date@ + "</Dt></BookgDt>"@),
        contains_text(statement_entry_xml(entry), "<ValDt><Dt>"@ + entry.value_date@ + "</Dt></ValDt>"@),
        contains_text(statement_entry_xml(entry), "<Refs><EndToEndId>"@ + entry.end_to_end_id@ + "</EndToEndId></Refs>"@),
{
    lemma_entry_shows_indicator(entry);
    lemma_entry_shows_booking_date(entry);
    lemma_entry_shows_value_date(entry);
    lemma_entry_shows_end_to_end_id(entry);
}

/// A camt.054 notification refers to its entry's end-to-end ID, and shows the entry's
/// credit/debit indicator.
pub proof fn law_camt054_fields(notification: NotificationEntry, creation_time: Seq<char>)
    ensures
        contains_text(camt054_xml(notification, creation_time), "<Refs><EndToEndId>"@ + notification.entry.end_to_end_id@ + "</EndToEndId></Refs>"@),
        contains_text(camt054_xml(notification, creation_time), "<CdtDbtInd>"@ + notification.entry.cd_indicator@ + "</CdtDbtInd>"@),
{
    {
        let a = "<?xml version=\"1.0\" encoding=\"UTF-8\"?>\n<Document xmlns=\"urn:iso:std:iso:20022:tech:xsd:camt.054.001.02\">\n  <BkToCstmrDbtCdtNtfctn>\n    <GrpHdr>\n      <MsgId>NTFCTN-"@ + notification.ntfctn_id@ + "</MsgId>\n      <CreDtTm>"@ + creation_time + "</CreDtTm>\n    </GrpHdr>\n    <Ntfctn>\n      <Id>"@ + notification.ntfctn_id@ + "</Id>\n      <Acct>\n        <Id><Othr><Id>"@ + notification.account_id@ + "</Id></Othr></Id>\n      </Acct>\n      <Ntry>\n        <NtryRef>"@ + notification.entry.entry_ref@ + "</NtryRef>\n        <Amt Ccy=\""@ + notification.entry.amount.currency@ + "\">"@ + notification.entry.amount.value@ + "</Amt>\n        <CdtDbtInd>"@ + notification.entry.cd_indicator@ + "</CdtDbtInd>\n        <BookgDt><Dt>"@ + notification.entry.booking_date@ + "</Dt></BookgDt>\n        <ValDt><Dt>"@ + notification.entry.value_date@;
        assert("</Dt></ValDt>\n        <NtryDtls>\n          <TxDtls>\n            <Refs><EndToEndId>"@ =~= "</Dt></ValDt>\n        <NtryDtls>\n          <TxDtls>\n            "@ + "<Refs><EndToEndId>"@) by {
            reveal_strlit("</Dt></ValDt>\n        <NtryDtls>\n          <TxDtls>\n            <Refs><EndToEndId>");
            reveal_strlit("</Dt></ValDt>\n        <NtryDtls>\n          <TxDtls>\n            ");
            reveal_strlit("<Refs><EndToEndId>");
        }
        assert("</EndToEndId></Refs>\n          </TxDtls>\n        </NtryDtls>\n      </Ntry>\n    </Ntfctn>\n  </BkToCstmrDbtCdtNtfctn>\n</Document>"@ =~= "</EndToEndId></Refs>"@ + "\n          </TxDtls>\n        </NtryDtls>\n      </Ntry>\n    </Ntfctn>\n  </BkToCstmrDbtCdtNtfctn>\n</Document>"@) by {
            reveal_strlit("</EndToEndId></Refs>\n          </TxDtls>\n        </NtryDtls>\n      </Ntry>\n    </Ntfctn>\n  </BkToCstmrDbtCdtNtfctn>\n</Document>");
            reveal_strlit("</EndToEndId></Refs>");
            reveal_strlit("\n          </TxDtls>\n        </NtryDtls>\n      </Ntry>\n    </Ntfctn>\n  </BkToCstmrDbtCdtNtfctn>\n</Document>");
        }
        lemma_contains_joined(a, "</Dt></ValDt>\n        <NtryDtls>\n          <TxDtls>\n            "@, "<Refs><EndToEndId>"@, notification.entry.end_to_end_id@, "</EndToEndId></Refs>"@, "\n          </TxDtls>\n        </NtryDtls>\n      </Ntry>\n    </Ntfctn>\n  </BkToCstmrDbtCdtNtfctn>\n</Document>"@, "</Dt></ValDt>\n        <NtryDtls>\n          <TxDtls>\n            <Refs><EndToEndId>"@, "</EndToEndId></Refs>\n          </TxDtls>\n        </NtryDtls>\n      </Ntry>\n    </Ntfctn>\n  </BkToCstmrDbtCdtNtfctn>\n</Document>"@);
    }
    {
        let a = "<?xml version=\"1.0\" encoding=\"UTF-8\"?>\n<Document xmlns=\"urn:iso:std:iso:20022:tech:xsd:camt.054.001.02\">\n  <BkToCstmrDbtCdtNtfctn>\n    <GrpHdr>\n      <MsgId>NTFCTN-"@ + notification.ntfctn_id@ + "</MsgId>\n      <CreDtTm>"@ + creation_time + "</CreDtTm>\n    </GrpHdr>\n    <Ntfctn>\n      <Id>"@ + notification.ntfctn_id@ + "</Id>\n      <Acct>\n        <Id><Othr><Id>"@ + notification.account_id@ + "</Id></Othr></Id>\n      </Acct>\n      <Ntry>\n        <NtryRef>"@ + notification.entry.entry_ref@ + "</NtryRef>\n        <Amt Ccy=\""@ + notification.entry.amount.currency@ + "\">"@ + notification.entry.amount.value@;
        assert("</Amt>\n        <CdtDbtInd>"@ =~= "</Amt>\n        "@ + "<CdtDbtInd>"@) by {
            reveal_strlit("</Amt>\n        <CdtDbtInd>");
            reveal_strlit("</Amt>\n        ");
            reveal_strlit("<CdtDbtInd>");
        }
        assert("</CdtDbtInd>\n        <BookgDt><Dt>"@ =~= "</CdtDbtInd>"@ + "\n        <BookgDt><Dt>"@) by {
            reveal_strlit("</CdtDbtInd>\n        <BookgDt><Dt>");
            reveal_strlit("</CdtDbtInd>");
            reveal_strlit("\n        <BookgDt><Dt>");
        }
        lemma_contains_joined(a, "</Amt>\n        "@, "<CdtDbtInd>"@, notification.entry.cd_indicator@, "</CdtDbtInd>"@, "\n        <BookgDt><Dt>"@, "</Amt>\n        <CdtDbtInd>"@, "</CdtDbtInd>\n        <BookgDt><Dt>"@);
        lemma_contains_left(a + "</Amt>\n        <CdtDbtInd>"@ + notification.entry.cd_indicator@ + "</CdtDbtInd>\n        <BookgDt><Dt>"@, notification.entry.booking_date@, "<CdtDbtInd>"@ + notification.entry.cd_indicator@ + "</CdtDbtInd>"@);
        lemma_contains_left(a + "</Amt>\n        <CdtDbtInd>"@ + notification.entry.cd_indicator@ + "</CdtDbtInd>\n        <BookgDt><Dt>"@ + notification.entry.booking_date@, "</Dt></BookgDt>\n        <ValDt><Dt>"@, "<CdtDbtInd>"@ + notification.entry.cd_indicator@ + "</CdtDbtInd>"@);
        lemma_contains_left(a + "</Amt>\n        <CdtDbtInd>"@ + notification.entry.cd_indicator@ + "</CdtDbtInd>\n        <BookgDt><Dt>"@ + notification.entry.booking_date@ + "</Dt></BookgDt>\n        <ValDt><Dt>"@, notification.entry.value_date@, "<CdtDbtInd>"@ + notification.entry.cd_indicator@ + "</CdtDbtInd>"@);
        lemma_contains_left(a + "</Amt>\n        <CdtDbtInd>"@ + notification.entry.cd_indicator@ + "</CdtDbtInd>\n        <BookgDt><Dt>"@ + notification.entry.booking_date@ + "</Dt></BookgDt>\n        <ValDt><Dt>"@ + notification.entry.value_date@, "</Dt></ValDt>\n        <NtryDtls>\n          <TxDtls>\n            <Refs><EndToEndId>"@, "<CdtDbtInd>"@ + notification.entry.cd_indicator@ + "</CdtDbtInd>"@);
        lemma_contains_left(a + "</Amt>\n        <CdtDbtInd>"@ + notification.entry.cd_indicator@ + "</CdtDbtInd>\n        <BookgDt><Dt>"@ + notification.entry.booking_date@ + "</Dt></BookgDt>\n        <ValDt><Dt>"@ + notification.entry.value_date@ + "</Dt></ValDt>\n        <NtryDtls>\n          <TxDtls>\n            <Refs><EndToEndId>"@, notification.entry.end_to_end_id@, "<CdtDbtInd>"@ + notification.entry.cd_indicator@ + "</CdtDbtInd>"@);
        lemma_contains_left(a + "</Amt>\n        <CdtDbtInd>"@ + notification.entry.cd_indicator@ + "</CdtDbtInd>\n        <BookgDt><Dt>"@ + notification.entry.booking_date@ + "</Dt></BookgDt>\n        <ValDt><Dt>"@ + notification.entry.value_date@ + "</Dt></ValDt>\n        <NtryDtls>\n          <TxDtls>\n            <Refs><EndToEndId>"@ + notification.entry.end_to_end_id@, "</EndToEndId></Refs>\n          </TxDtls>\n        </NtryDtls>\n      </Ntry>\n    </Ntfctn>\n  </BkToCstmrDbtCdtNtfctn>\n</Document>"@, "<CdtDbtInd>"@ + notification.entry.cd_indicator@ + "</CdtDbtInd>"@);
    }
}

#[verifier::rlimit(60)]
proof fn lemma_pacs008_shows_purpose(settlement: SettlementData)
    ensures
        settlement.instruction.purpose_code matches Some(c) ==> contains_text(
            pacs008_xml(settlement),
            "<Purp><Cd>"@ + c@ + "</Cd></Purp>"@,
        ),
{
    let h = "<?xml version=\"1.0\" encoding=\"UTF-8\"?>\n<Document xmlns=\"urn:iso:std:iso:20022:tech:xsd:pacs.008.001.02\">\n  <FIToFICstmrCdtTrf>\n    <GrpHdr>\n      <MsgId>PACS008-"@ + settlement.instruction.end_to_end_id@ + "</MsgId>\n      <CreDtTm>"@ + settlement.settlement_time@ + "</CreDtTm>\n      <NbOfTxs>1</NbOfTxs>\n      <SttlmInf>\n        <SttlmMtd>CLRG</SttlmMtd>\n      </SttlmInf>\n      <InstgAgt>\n        <FinInstnId><BICFI>"@ + settlement.instructing_agent@ + "</BICFI></FinInstnId>\n      </InstgAgt>\n      <InstdAgt>\n        <FinInstnId><BICFI>"@ + settlement.instructed_agent@ + "</BICFI></FinInstnId>\n      </InstdAgt>\n    </GrpHdr>\n    <CdtTrfTxInf>\n      <PmtId>\n        <EndToEndId>"@ + settlement.instruction.end_to_end_id@ + "</EndToEndId>\n        <TxId>"@ + settlement.chain_tx_hash@ + "</TxId>\n      </PmtId>\n      <IntrBkSttlmAmt Ccy=\""@ + settlement.instruction.amount.currency@ + "\">"@ + settlement.instruction.amount.value@ + "</IntrBkSttlmAmt>\n      <IntrBkSttlmDt>"@ + settlement_date(settlement.settlement_time@) + "</IntrBkSttlmDt>\n      <Dbtr>\n        <Nm>"@ + settlement.instruction.debtor.name@ + "</Nm>\n      </Dbtr>\n      <DbtrAcct>\n        <Id><Othr><Id>"@ + settlement.instruction.debtor_account.id@ + "</Id></Othr></Id>\n      </DbtrAcct>\n      <Cdtr>\n        <Nm>"@ + settlement.instruction.creditor.name@ + "</Nm>\n      </Cdtr>\n      <CdtrAcct>\n        <Id><Othr><Id>"@ + settlement.instruction.creditor_account.id@ + "</Id></Othr></Id>\n      </CdtrAcct>"@;
    let op = optional_element(settlement.instruction.purpose_code, "\n      <Purp><Cd>"@, "</Cd></Purp>"@);
    let orr = optional_element(settlement.instruction.remittance_info, "\n      <RmtInf><Ustrd>"@, "</Ustrd></RmtInf>"@);
    if let Some(c) = settlement.instruction.purpose_code {
        let needle = "<Purp><Cd>"@ + c@ + "</Cd></Purp>"@;
        assert("\n      <Purp><Cd>"@ =~= "\n      "@ + "<Purp><Cd>"@) by {
            reveal_strlit("\n      <Purp><Cd>");
            reveal_strlit("\n      ");
            reveal_strlit("<Purp><Cd>");
        }
        assert("</Cd></Purp>"@ =~= "</Cd></Purp>"@ + Seq::<char>::empty());
        lemma_contains_joined(
            Seq::empty(),
            "\n      "@,
            "<Purp><Cd>"@,
            c@,
            "</Cd></Purp>"@,
            Seq::<char>::empty(),
            "\n      <Purp><Cd>"@,
            "</Cd></Purp>"@,
        );
        assert(op =~= Seq::<char>::empty() + "\n      <Purp><Cd>"@ + c@ + "</Cd></Purp>"@);
        lemma_contains_right(h, op, needle);
        lemma_contains_left(h + op, orr, needle);
        lemma_contains_left(h + op + orr, "\n    </CdtTrfTxInf>\n  </FIToFICstmrCdtTrf>\n</Document>"@, needle);
    }
}

#[verifier::rlimit(60)]
proof fn lemma_pacs008_shows_remittance(settlement: SettlementData)
    ensures
        settlement.instruction.remittance_info matches Some(u) ==> contains_text(
            pacs008_xml(settlement),
            "<RmtInf><Ustrd>"@ + u@ + "</Ustrd></RmtInf>"@,
        ),
{
    let h = "<?xml version=\"1.0\" encoding=\"UTF-8\"?>\n<Document xmlns=\"urn:iso:std:iso:20022:tech:xsd:pacs.008.001.02\">\n  <FIToFICstmrCdtTrf>\n    <GrpHdr>\n      <MsgId>PACS008-"@ + settlement.instruction.end_to_end_id@ + "</MsgId>\n      <CreDtTm>"@ + settlement.settlement_time@ + "</CreDtTm>\n      <NbOfTxs>1</NbOfTxs>\n      <SttlmInf>\n        <SttlmMtd>CLRG</SttlmMtd>\n      </SttlmInf>\n      <InstgAgt>\n        <FinInstnId><BICFI>"@ + settlement.instructing_agent@ + "</BICFI></FinInstnId>\n      </InstgAgt>\n      <InstdAgt>\n        <FinInstnId><BICFI>"@ + settlement.instructed_agent@ + "</BICFI></FinInstnId>\n      </InstdAgt>\n    </GrpHdr>\n    <CdtTrfTxInf>\n      <PmtId>\n        <EndToEndId>"@ + settlement.instruction.end_to_end_id@ + "</EndToEndId>\n        <TxId>"@ + settlement.chain_tx_hash@ + "</TxId>\n      </PmtId>\n      <IntrBkSttlmAmt Ccy=\""@ + settlement.instruction.amount.currency@ + "\">"@ + settlement.instruction.amount.value@ + "</IntrBkSttlmAmt>\n      <IntrBkSttlmDt>"@ + settlement_date(settlement.settlement_time@) + "</IntrBkSttlmDt>\n      <Dbtr>\n        <Nm>"@ + settlement.instruction.debtor.name@ + "</Nm>\n      </Dbtr>\n      <DbtrAcct>\n        <Id><Othr><Id>"@ + settlement.instruction.debtor_account.id@ + "</Id></Othr></Id>\n      </DbtrAcct>\n      <Cdtr>\n        <Nm>"@ + settlement.instruction.creditor.name@ + "</Nm>\n      </Cdtr>\n      <CdtrAcct>\n        <Id><Othr><Id>"@ + settlement.instruction.creditor_account.id@ + "</Id></Othr></Id>\n      </CdtrAcct>"@;
    let op = optional_element(settlement.instruction.purpose_code, "\n      <Purp><Cd>"@, "</Cd></Purp>"@);
    let orr = optional_element(settlement.instruction.remittance_info, "\n      <RmtInf><Ustrd>"@, "</Ustrd></RmtInf>"@);
    if let Some(u) = settlement.instruction.remittance_info {
        let needle = "<RmtInf><Ustrd>"@ + u@ + "</Ustrd></RmtInf>"@;
        assert("\n      <RmtInf><Ustrd>"@ =~= "\n      "@ + "<RmtInf><Ustrd>"@) by {
            reveal_strlit("\n      <RmtInf><Ustrd>");
            reveal_strlit("\n      ");
            reveal_strlit("<RmtInf><Ustrd>");
        }
        assert("</Ustrd></RmtInf>"@ =~= "</Ustrd></RmtInf>"@ + Seq::<char>::empty());
        lemma_contains_joined(
            Seq::empty(),
            "\n      "@,
            "<RmtInf><Ustrd>"@,
            u@,
            "</Ustrd></RmtInf>"@,
            Seq::<char>::empty(),
            "\n      <RmtInf><Ustrd>"@,
            "</Ustrd></RmtInf>"@,
        );
        assert(orr =~= Seq::<char>::empty() + "\n      <RmtInf><Ustrd>"@ + u@ + "</Ustrd></RmtInf>"@);
        lemma_contains_right(h + op, orr, needle);
        lemma_contains_left(h + op + orr, "\n    </CdtTrfTxInf>\n  </FIToFICstmrCdtTrf>\n</Document>"@, needle);
    }
}

/// A pacs.008 carries the instruction's purpose code and remittance information, when
/// present, each in its own element.
pub proof fn law_pacs008_purpose_and_remittance(settlement: SettlementData)
    ensures
        settlement.instruction.purpose_code matches Some(c) ==> contains_text(
            pacs008_xml(settlement),
            "<Purp><Cd>"@ + c@ + "</Cd></Purp>"@,
        ),
        settlement.instruction.remittance_info matches Some(u) ==> contains_text(
            pacs008_xml(settlement),
            "<RmtInf><Ustrd>"@ + u@ + "</Ustrd></RmtInf>"@,
        ),
{
    lemma_pacs008_shows_purpose(settlement);
    lemma_pacs008_shows_remittance(settlement);
}

/// The `<Ntry>` elements of a statement hold each entry's own rendering.
proof fn lemma_entries_contain(entries: Seq<StatementEntry>, i: int)
    requires
        0 <= i < entries.len(),
    ensures
        contains_text(statement_entries_xml(entries), statement_entry_xml(entries[i])),
    decreases entries.len(),
{
    let init = entries.drop_last();
    if i == entries.len() - 1 {
        lemma_contains_middle(statement_entries_xml(init), statement_entry_xml(entries[i]), Seq::empty());
        assert(statement_entries_xml(init) + statement_entry_xml(entries[i]) + Seq::<char>::empty()
            =~= statement_entries_xml(entries));
    } else {
        lemma_entries_contain(init, i);
        assert(init[i] == entries[i]);
        lemma_contains_left(
            statement_entries_xml(init),
            statement_entry_xml(entries.last()),
            statement_entry_xml(entries[i]),
        );
    }
}

/// Every entry of a camt.053 statement is shown with its own credit/debit indicator,
/// booking and value dates and end-to-end ID.
pub proof fn law_camt053_entry_fields(
    statement_id: Seq<char>,
    account_id: Seq<char>,
    entries: Seq<StatementEntry>,
    creation_time: Seq<char>,
    i: int,
)
    requires
        0 <= i < entries.len(),
    ensures
        contains_text(
            camt053_xml(statement_id, account_id, entries, creation_time),
            "<CdtDbtInd>"@ + entries[i].cd_indicator@ + "</CdtDbtInd>"@,
        ),
        contains_text(
            camt053_xml(statement_id, account_id, entries, creation_time),
            "<BookgDt><Dt>"@ + entries[i].booking_date@ + "</Dt></BookgDt>"@,
        ),
        contains_text(
            camt053_xml(statement_id, account_id, entries, creation_time),
            "<ValDt><Dt>"@ + entries[i].value_date@ + "</Dt></ValDt>"@,
        ),
        contains_text(
            camt053_xml(statement_id, account_id, entries, creation_time),
            "<Refs><EndToEndId>"@ + entries[i].end_to_end_id@ + "</EndToEndId></Refs>"@,
        ),
{
    let doc = camt053_xml(statement_id, account_id, entries, creation_time);
    let e = entries[i];
    lemma_contains_middle("<?xml version=\"1.0\" encoding=\"UTF-8\"?>\n<Document xmlns=\"urn:iso:std:iso:20022:tech:xsd:camt.053.001.02\">\n  <BkToCstmrStmt>\n    <GrpHdr>\n      <MsgId>"@ + statement_id + "</MsgId>\n      <CreDtTm>"@ + creation_time + "</CreDtTm>\n    </GrpHdr>\n    <Stmt>\n      <Id>"@ + statement_id + "</Id>\n      <Acct>\n        <Id><Othr><Id>"@ + account_id + "</Id></Othr></Id>\n      </Acct>"@, statement_entries_xml(entries), "\n    </Stmt>\n  </BkToCstmrStmt>\n</Document>"@);
    lemma_entries_contain(entries, i);
    lemma_contains_trans(doc, statement_entries_xml(entries), statement_entry_xml(e));
    law_statement_entry_fields(e);
    lemma_contains_trans(doc, statement_entry_xml(e), "<CdtDbtInd>"@ + e.cd_indicator@ + "</CdtDbtInd>"@);
    lemma_contains_trans(doc, statement_entry_xml(e), "<BookgDt><Dt>"@ + e.booking_date@ + "</Dt></BookgDt>"@);
    lemma_contains_trans(doc, statement_entry_xml(e), "<ValDt><Dt>"@ + e.value_date@ + "</Dt></ValDt>"@);
    lemma_contains_trans(doc, statement_entry_xml(e), "<Refs><EndToEndId>"@ + e.end_to_end_id@ + "</EndToEndId></Refs>"@);
}

} // verus!
