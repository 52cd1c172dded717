//! ISO 20022 XML message parser.
//!
//! Parses inbound pain.001 messages into structured `PaymentInstruction` data. The XML
//! is tokenized by `quick_xml`; the element path tracking and the field extraction are
//! the state machine below.
use crate::iso20022::types::{Account, Amount, CreditTransfer, Party, PaymentInstruction};
use crate::iso20022::xml::{
    enable_trim_text, is_content, read_xml_event, reads_content, start_attribute, xml_attribute,
    xml_event_at, xml_reader, AttributeRead, AttributeToken, XmlEvent, XmlReadError, XmlToken,
};
use vstd::prelude::*;
use vstd::string::*;
use vstd::utf8::*;

verus! {

/// The characters of an optional string.
pub open spec fn opt_chars(o: Option<String>) -> Option<Seq<char>> {
    match o {
        Some(s) => Some(s@),
        None => None,
    }
}

/// The fields of a credit transfer, as character sequences.
pub struct TransferFields {
    pub end_to_end_id: Seq<char>,
    pub currency: Seq<char>,
    pub amount: Seq<char>,
    pub debtor_name: Seq<char>,
    pub debtor_bic: Option<Seq<char>>,
    pub debtor_account: Seq<char>,
    pub creditor_name: Seq<char>,
    pub creditor_bic: Option<Seq<char>>,
    pub creditor_account: Seq<char>,
    pub purpose_code: Option<Seq<char>>,
    pub remittance_info: Option<Seq<char>>,
}

/// The fields of a payment instruction, as character sequences.
pub struct InstructionFields {
    pub msg_id: Seq<char>,
    pub creation_date_time: Seq<char>,
    pub nb_of_txs: u32,
    pub ctrl_sum: Option<Seq<char>>,
    pub transactions: Seq<TransferFields>,
}

impl View for CreditTransfer {
    type V = TransferFields;

    open spec fn view(&self) -> TransferFields {
        TransferFields {
            end_to_end_id: self.end_to_end_id@,
            currency: self.amount.currency@,
            amount: self.amount.value@,
            debtor_name: self.debtor.name@,
            debtor_bic: opt_chars(self.debtor.bic),
            debtor_account: self.debtor_account.id@,
            creditor_name: self.creditor.name@,
            creditor_bic: opt_chars(self.creditor.bic),
            creditor_account: self.creditor_account.id@,
            purpose_code: opt_chars(self.purpose_code),
            remittance_info: opt_chars(self.remittance_info),
        }
    }
}

impl View for PaymentInstruction {
    type V = InstructionFields;

    open spec fn view(&self) -> InstructionFields {
        InstructionFields {
            msg_id: self.msg_id@,
            creation_date_time: self.creation_date_time@,
            nb_of_txs: self.nb_of_txs,
            ctrl_sum: opt_chars(self.ctrl_sum),
            transactions: self.transactions@.map_values(|t: CreditTransfer| t@),
        }
    }
}

/// `bytes` ends with `suffix`.
pub open spec fn bytes_end_with(bytes: Seq<u8>, suffix: Seq<u8>) -> bool {
    suffix.len() <= bytes.len() && bytes.subrange(bytes.len() - suffix.len(), bytes.len() as int)
        == suffix
}

/// The UTF-8 encoding of `path` ends with that of `suffix` (as `str::ends_with` decides).
pub open spec fn path_ends(path: Seq<char>, suffix: Seq<char>) -> bool {
    bytes_end_with(encode_utf8(path), encode_utf8(suffix))
}

/// Whether `s` ends with `suffix`, byte for byte.
pub fn ends_with(s: &str, suffix: &str) -> (r: bool)
    ensures
        r == path_ends(s@, suffix@),
{
    let b = s.as_bytes();
    let t = suffix.as_bytes();
    if t.len() > b.len() {
        return false;
    }
    let offset = b.len() - t.len();
    let mut i: usize = 0;
    while i < t.len()
        invariant
            b@ == encode_utf8(s@),
            t@ == encode_utf8(suffix@),
            t.len() <= b.len(),
            offset == b.len() - t.len(),
            i <= t.len(),
            forall|j: int| 0 <= j < i ==> #[trigger] t@[j] == b@[offset + j],
        decreases t.len() - i,
    {
        if b[offset + i] != t[i] {
            assert(b@.subrange(offset as int, b@.len() as int)[i as int] != t@[i as int]);
            return false;
        }
        i = i + 1;
    }
    assert(b@.subrange(offset as int, b@.len() as int) =~= t@);
    true
}

/// The decimal value of a sequence of ASCII digits.
pub open spec fn decimal_value(digits: Seq<u8>) -> nat
    decreases digits.len(),
{
    if digits.len() == 0 {
        0
    } else {
        decimal_value(digits.drop_last()) * 10 + (digits.last() - 48) as nat
    }
}

/// Every byte is an ASCII digit.
pub open spec fn all_digits(bytes: Seq<u8>) -> bool {
    forall|i: int| 0 <= i < bytes.len() ==> 48 <= #[trigger] bytes[i] <= 57
}

/// What `str::parse::<u32>` gives for `bytes`: an optional `+` sign, then one or more
/// decimal digits whose value fits in 32 bits.
pub open spec fn spec_parse_u32(bytes: Seq<u8>) -> Option<u32> {
    let digits = if bytes.len() > 0 && bytes[0] == 43 {
        bytes.drop_first()
    } else {
        bytes
    };
    if digits.len() > 0 && all_digits(digits) && decimal_value(digits) <= u32::MAX {
        Some(decimal_value(digits) as u32)
    } else {
        None
    }
}

/// Parses a decimal `u32` the way `str::parse::<u32>` does.
pub fn parse_u32(text: &str) -> (r: Option<u32>)
    ensures
        r == spec_parse_u32(text.spec_bytes()),
{
    let b = text.as_bytes();
    let start: usize = if b.len() > 0 && b[0] == 43 { 1 } else { 0 };
    let ghost digits = b@.subrange(start as int, b@.len() as int);
    assert(digits =~= (if b@.len() > 0 && b@[0] == 43 { b@.drop_first() } else { b@ }));
    if start >= b.len() {
        return None;
    }
    let mut acc: u64 = 0;
    let mut overflow = false;
    let mut i: usize = start;
    while i < b.len()
        invariant
            start <= i <= b.len(),
            b@ == text.spec_bytes(),
            digits == b@.subrange(start as int, b@.len() as int),
            digits == (if b@.len() > 0 && b@[0] == 43 { b@.drop_first() } else { b@ }),
            all_digits(b@.subrange(start as int, i as int)),
            !overflow ==> acc == decimal_value(b@.subrange(start as int, i as int)) && acc
                <= u32::MAX,
            overflow ==> decimal_value(b@.subrange(start as int, i as int)) > u32::MAX,
        decreases b.len() - i,
    {
        let c = b[i];
        let prefix = Ghost(b@.subrange(start as int, i as int));
        let next = Ghost(b@.subrange(start as int, i + 1));
        assert(next@.drop_last() =~= prefix@);
        if c < 48 || c > 57 {
            assert(!all_digits(digits)) by {
                assert(digits[i - start] == c);
            }
            return None;
        }
        if !overflow {
            let d: u64 = (c - 48) as u64;
            let v: u64 = acc * 10 + d;
            if v > 4294967295 {
                overflow = true;
            } else {
                acc = v;
            }
        }
        i = i + 1;
        assert(all_digits(b@.subrange(start as int, i as int))) by {
            assert forall|j: int| 0 <= j < next@.len() implies 48 <= #[trigger] next@[j] <= 57 by {
                if j < prefix@.len() {
                    assert(next@[j] == prefix@[j]);
                }
            }
        }
    }
    assert(b@.subrange(start as int, i as int) =~= digits);
    if overflow {
        None
    } else {
        Some(acc as u32)
    }
}

/// Builder for constructing a `CreditTransfer` from XML parsing events.
#[derive(Clone, Debug)]
pub struct CreditTransferBuilder {
    pub end_to_end_id: String,
    pub currency: String,
    pub amount: String,
    pub debtor_name: String,
    pub debtor_bic: Option<String>,
    pub debtor_account: String,
    pub creditor_name: String,
    pub creditor_bic: Option<String>,
    pub creditor_account: String,
    pub purpose_code: Option<String>,
    pub remittance_info: Option<String>,
}

impl View for CreditTransferBuilder {
    type V = TransferFields;

    open spec fn view(&self) -> TransferFields {
        TransferFields {
            end_to_end_id: self.end_to_end_id@,
            currency: self.currency@,
            amount: self.amount@,
            debtor_name: self.debtor_name@,
            debtor_bic: opt_chars(self.debtor_bic),
            debtor_account: self.debtor_account@,
            creditor_name: self.creditor_name@,
            creditor_bic: opt_chars(self.creditor_bic),
            creditor_account: self.creditor_account@,
            purpose_code: opt_chars(self.purpose_code),
            remittance_info: opt_chars(self.remittance_info),
        }
    }
}

/// The empty transfer: every text field empty, every optional field absent.
pub open spec fn empty_transfer() -> TransferFields {
    TransferFields {
        end_to_end_id: Seq::empty(),
        currency: Seq::empty(),
        amount: Seq::empty(),
        debtor_name: Seq::empty(),
        debtor_bic: None,
        debtor_account: Seq::empty(),
        creditor_name: Seq::empty(),
        creditor_bic: None,
        creditor_account: Seq::empty(),
        purpose_code: None,
        remittance_info: None,
    }
}

/// The transfer after character data `text` was read at element path `path`: the field
/// named by the first matching path suffix takes the text.
pub open spec fn spec_apply_text(b: TransferFields, path: Seq<char>, text: Seq<char>) -> TransferFields {
    if path_ends(path, "PmtId/EndToEndId"@) {
        TransferFields { end_to_end_id: text, ..b }
    } else if path_ends(path, "InstdAmt"@) {
        TransferFields { amount: text, ..b }
    } else if path_ends(path, "Dbtr/Nm"@) {
        TransferFields { debtor_name: text, ..b }
    } else if path_ends(path, "DbtrAgt/FinInstnId/BIC"@) || path_ends(
        path,
        "DbtrAgt/FinInstnId/BICFI"@,
    ) {
        TransferFields { debtor_bic: Some(text), ..b }
    } else if path_ends(path, "DbtrAcct/Id/IBAN"@) || path_ends(path, "DbtrAcct/Id/Othr/Id"@) {
        TransferFields { debtor_account: text, ..b }
    } else if path_ends(path, "Cdtr/Nm"@) {
        TransferFields { creditor_name: text, ..b }
    } else if path_ends(path, "CdtrAgt/FinInstnId/BIC"@) || path_ends(
        path,
        "CdtrAgt/FinInstnId/BICFI"@,
    ) {
        TransferFields { creditor_bic: Some(text), ..b }
    } else if path_ends(path, "CdtrAcct/Id/IBAN"@) || path_ends(path, "CdtrAcct/Id/Othr/Id"@) {
        TransferFields { creditor_account: text, ..b }
    } else if path_ends(path, "Purp/Cd"@) {
        TransferFields { purpose_code: Some(text), ..b }
    } else if path_ends(path, "RmtInf/Ustrd"@) {
        TransferFields { remittance_info: Some(text), ..b }
    } else {
        b
    }
}

/// The finished transfer: the currency defaults to `USD` when none was read.
pub open spec fn spec_build(b: TransferFields) -> TransferFields {
    if b.currency.len() == 0 {
        TransferFields { currency: "USD"@, ..b }
    } else {
        b
    }
}

impl CreditTransferBuilder {
    /// A builder with every field empty.
    pub fn new() -> (r: CreditTransferBuilder)
        ensures
            r@ == empty_transfer(),
    {
        CreditTransferBuilder {
            end_to_end_id: String::new(),
            currency: String::new(),
            amount: String::new(),
            debtor_name: String::new(),
            debtor_bic: None,
            debtor_account: String::new(),
            creditor_name: String::new(),
            creditor_bic: None,
            creditor_account: String::new(),
            purpose_code: None,
            remittance_info: None,
        }
    }

    /// Records character data read at element path `path` in the field it names.
    pub fn apply_text(&mut self, path: &str, text: &str)
        ensures
            final(self)@ == spec_apply_text(old(self)@, path@, text@),
    {
        let t = String::from_str(text);
        if ends_with(path, "PmtId/EndToEndId") {
            self.end_to_end_id = t;
        } else if ends_with(path, "InstdAmt") {
            // The currency comes from the `Ccy` attribute, which is not read here.
            self.amount = t;
        } else if ends_with(path, "Dbtr/Nm") {
            self.debtor_name = t;
        } else if ends_with(path, "DbtrAgt/FinInstnId/BIC") || ends_with(
            path,
            "DbtrAgt/FinInstnId/BICFI",
        ) {
            self.debtor_bic = Some(t);
        } else if ends_with(path, "DbtrAcct/Id/IBAN") || ends_with(path, "DbtrAcct/Id/Othr/Id") {
            self.debtor_account = t;
        } else if ends_with(path, "Cdtr/Nm") {
            self.creditor_name = t;
        } else if ends_with(path, "CdtrAgt/FinInstnId/BIC") || ends_with(
            path,
            "CdtrAgt/FinInstnId/BICFI",
        ) {
            self.creditor_bic = Some(t);
        } else if ends_with(path, "CdtrAcct/Id/IBAN") || ends_with(path, "CdtrAcct/Id/Othr/Id") {
            self.creditor_account = t;
        } else if ends_with(path, "Purp/Cd") {
            self.purpose_code = Some(t);
        } else if ends_with(path, "RmtInf/Ustrd") {
            self.remittance_info = Some(t);
        }
    }

    /// Records the currency code of the instructed amount.
    pub fn set_currency(&mut self, currency: String)
        ensures
            final(self)@ == (TransferFields { currency: currency@, ..old(self)@ }),
    {
        self.currency = currency;
    }

    /// The credit transfer the builder describes; the currency defaults to `USD`.
    pub fn build(self) -> (r: CreditTransfer)
        ensures
            r@ == spec_build(self@),
    {
        let currency = if self.currency.unicode_len() == 0 {
            String::from_str("USD")
        } else {
            self.currency
        };
        CreditTransfer {
            end_to_end_id: self.end_to_end_id,
            amount: Amount { currency, value: self.amount },
            debtor: Party { name: self.debtor_name, bic: self.debtor_bic },
            debtor_account: Account { id: self.debtor_account },
            creditor: Party { name: self.creditor_name, bic: self.creditor_bic },
            creditor_account: Account { id: self.creditor_account },
            purpose_code: self.purpose_code,
            remittance_info: self.remittance_info,
        }
    }
}

/// The state of a pain.001 parse, as character sequences.
pub struct ParseFields {
    pub msg_id: Seq<char>,
    pub creation_date_time: Seq<char>,
    pub nb_of_txs: u32,
    pub ctrl_sum: Option<Seq<char>>,
    pub transactions: Seq<TransferFields>,
    pub path: Seq<Seq<char>>,
    pub current: Option<TransferFields>,
}

/// The state before any event.
pub open spec fn initial_parse() -> ParseFields {
    ParseFields {
        msg_id: Seq::empty(),
        creation_date_time: Seq::empty(),
        nb_of_txs: 0,
        ctrl_sum: None,
        transactions: Seq::empty(),
        path: Seq::empty(),
        current: None,
    }
}

/// The element names of the open path, joined with `/`.
pub open spec fn join_path(path: Seq<Seq<char>>) -> Seq<char>
    decreases path.len(),
{
    if path.len() == 0 {
        Seq::empty()
    } else if path.len() == 1 {
        path[0]
    } else {
        join_path(path.drop_last()) + "/"@ + path.last()
    }
}

/// The element whose text starts and ends a credit transfer.
pub open spec fn is_transfer_element(name: Seq<char>) -> bool {
    name == "CdtTrfTxInf"@
}

/// The parse state after `text` was read at the open path.
pub open spec fn spec_read_text(s: ParseFields, text: Seq<char>) -> ParseFields {
    let path = join_path(s.path);
    if path_ends(path, "GrpHdr/MsgId"@) {
        ParseFields { msg_id: text, ..s }
    } else if path_ends(path, "GrpHdr/CreDtTm"@) {
        ParseFields { creation_date_time: text, ..s }
    } else if path_ends(path, "GrpHdr/NbOfTxs"@) {
        ParseFields {
            nb_of_txs: match spec_parse_u32(encode_utf8(text)) {
                Some(n) => n,
                None => 0,
            },
            ..s
        }
    } else if path_ends(path, "GrpHdr/CtrlSum"@) {
        ParseFields { ctrl_sum: Some(text), ..s }
    } else {
        match s.current {
            Some(b) => ParseFields { current: Some(spec_apply_text(b, path, text)), ..s },
            None => s,
        }
    }
}

/// The transfer in progress after a start tag `name` with content `tag` opened `path`: an
/// instructed amount's `Ccy` attribute gives the transfer its currency. An absent `Ccy`, or
/// attributes that cannot be read up to it, leave the currency unread.
pub open spec fn spec_open_amount(
    current: Option<TransferFields>,
    path: Seq<Seq<char>>,
    name: Seq<char>,
    tag: Seq<char>,
) -> Option<TransferFields> {
    match current {
        Some(b) => if path_ends(join_path(path), "InstdAmt"@) && encode_utf8(name).len()
            <= encode_utf8(tag).len() {
            match xml_attribute(tag, encode_utf8(name).len(), "Ccy"@) {
                AttributeToken::Value(c) => Some(TransferFields { currency: c, ..b }),
                _ => current,
            }
        } else {
            current
        },
        None => None,
    }
}

/// The parse state after one event (an end of document changes nothing).
#[verifier::opaque]
pub open spec fn spec_parse_step(s: ParseFields, event: XmlToken) -> ParseFields {
    match event {
        XmlToken::Start(name, tag) => {
            let path = s.path.push(name);
            let current = if is_transfer_element(name) {
                Some(empty_transfer())
            } else {
                s.current
            };
            ParseFields { path, current: spec_open_amount(current, path, name, tag), ..s }
        },
        XmlToken::End(name) => {
            let closed = if is_transfer_element(name) && s.current is Some {
                ParseFields {
                    transactions: s.transactions.push(spec_build(s.current->0)),
                    current: None,
                    ..s
                }
            } else {
                s
            };
            ParseFields {
                path: if closed.path.len() > 0 {
                    closed.path.drop_last()
                } else {
                    closed.path
                },
                ..closed
            }
        },
        XmlToken::Text(text) => spec_read_text(s, text),
        XmlToken::Eof => s,
        XmlToken::Other => s,
    }
}

/// The parse state after a stream of events.
pub open spec fn spec_parse_run(events: Seq<XmlToken>) -> ParseFields
    decreases events.len(),
{
    if events.len() == 0 {
        initial_parse()
    } else {
        spec_parse_step(spec_parse_run(events.drop_last()), events.last())
    }
}

/// One event keeps every transfer already read, appending at most one.
proof fn lemma_step_keeps_transfers(s: ParseFields, event: XmlToken)
    ensures
        s.transactions.is_prefix_of(spec_parse_step(s, event).transactions),
        spec_parse_step(s, event).transactions.len() <= s.transactions.len() + 1,
{
    reveal(spec_parse_step);
    let t = spec_parse_step(s, event).transactions;
    assert(s.transactions =~= t.subrange(0, s.transactions.len() as int));
}

/// Transfers come out in document order: reading further events never changes or removes
/// a transfer already read, and each event adds at most one.
pub proof fn law_parse_transfers_grow(events: Seq<XmlToken>, more: Seq<XmlToken>)
    ensures
        spec_parse_run(events).transactions.is_prefix_of(spec_parse_run(events + more).transactions),
        spec_parse_run(events + more).transactions.len() <= spec_parse_run(events).transactions.len()
            + more.len(),
    decreases more.len(),
{
    if more.len() == 0 {
        assert(events + more =~= events);
    } else {
        let rest = more.drop_last();
        law_parse_transfers_grow(events, rest);
        assert((events + more).drop_last() =~= events + rest);
        assert((events + more).last() == more.last());
        lemma_step_keeps_transfers(spec_parse_run(events + rest), more.last());
        let a = spec_parse_run(events).transactions;
        let b = spec_parse_run(events + rest).transactions;
        let c = spec_parse_run(events + more).transactions;
        assert(a =~= c.subrange(0, a.len() as int)) by {
            assert forall|i: int| 0 <= i < a.len() implies a[i] == c[i] by {
                assert(a[i] == b.subrange(0, a.len() as int)[i]);
                assert(b[i] == c.subrange(0, b.len() as int)[i]);
            }
        }
    }
}

/// The last UTF-8 byte of a path that ends in an ASCII suffix is the suffix's last character.
proof fn lemma_path_last_byte(path: Seq<char>, suffix: Seq<char>)
    requires
        path_ends(path, suffix),
        suffix.len() > 0,
        is_ascii_chars(suffix),
    ensures
        encode_utf8(path).len() > 0,
        encode_utf8(path).last() == suffix.last() as u8,
{
    is_ascii_chars_encode_utf8(suffix);
    let b = encode_utf8(path);
    let sb = encode_utf8(suffix);
    assert(b.last() == b.subrange(b.len() - sb.len(), b.len() as int)[sb.len() - 1]);
    assert(sb[sb.len() - 1] == suffix[suffix.len() - 1] as u8);
}

/// A path ending in an ASCII suffix does not end in one with another last character.
proof fn lemma_suffixes_exclusive(path: Seq<char>, x: Seq<char>, y: Seq<char>)
    requires
        path_ends(path, x),
        x.len() > 0,
        y.len() > 0,
        is_ascii_chars(x),
        is_ascii_chars(y),
        x.last() as u8 != y.last() as u8,
    ensures
        !path_ends(path, y),
{
    lemma_path_last_byte(path, x);
    if path_ends(path, y) {
        lemma_path_last_byte(path, y);
    }
}

/// One step of the law below, on parse states.
proof fn lemma_debtor_agent_bic_step(s: ParseFields, text: Seq<char>)
    requires
        s.current is Some,
        path_ends(join_path(s.path), "DbtrAgt/FinInstnId/BIC"@) || path_ends(
            join_path(s.path),
            "DbtrAgt/FinInstnId/BICFI"@,
        ),
    ensures
        spec_parse_step(s, XmlToken::Text(text)).current matches Some(t) && t.debtor_bic
            == Some(text),
        ({
            let closed = spec_parse_step(
                spec_parse_step(s, XmlToken::Text(text)),
                XmlToken::End("CdtTrfTxInf"@),
            );
            &&& closed.transactions.len() == s.transactions.len() + 1
            &&& closed.transactions.last().debtor_bic == Some(text)
        }),
{
    reveal(spec_parse_step);
    let p = join_path(s.path);
    let x = if path_ends(p, "DbtrAgt/FinInstnId/BIC"@) {
        "DbtrAgt/FinInstnId/BIC"@
    } else {
        "DbtrAgt/FinInstnId/BICFI"@
    };
    reveal_strlit("DbtrAgt/FinInstnId/BIC");
    reveal_strlit("DbtrAgt/FinInstnId/BICFI");
    reveal_strlit("GrpHdr/MsgId");
    reveal_strlit("GrpHdr/CreDtTm");
    reveal_strlit("GrpHdr/NbOfTxs");
    reveal_strlit("GrpHdr/CtrlSum");
    reveal_strlit("PmtId/EndToEndId");
    reveal_strlit("InstdAmt");
    reveal_strlit("Dbtr/Nm");
    reveal_strlit("CdtTrfTxInf");
    assert(is_ascii_chars(x));
    lemma_suffixes_exclusive(p, x, "GrpHdr/MsgId"@);
    lemma_suffixes_exclusive(p, x, "GrpHdr/CreDtTm"@);
    lemma_suffixes_exclusive(p, x, "GrpHdr/NbOfTxs"@);
    lemma_suffixes_exclusive(p, x, "GrpHdr/CtrlSum"@);
    lemma_suffixes_exclusive(p, x, "PmtId/EndToEndId"@);
    lemma_suffixes_exclusive(p, x, "InstdAmt"@);
    lemma_suffixes_exclusive(p, x, "Dbtr/Nm"@);
    let s1 = spec_parse_step(s, XmlToken::Text(text));
    assert(s1.current->0.debtor_bic == Some(text));
    assert(is_transfer_element("CdtTrfTxInf"@));
}

/// Inside a credit transfer, text read at an element path ending in
/// `DbtrAgt/FinInstnId/BIC` or `DbtrAgt/FinInstnId/BICFI` becomes the transfer's debtor
/// BIC: the instruction parsed from the events so far, that text and the transfer's end
/// holds one more transfer, and its debtor BIC is that text.
pub proof fn law_debtor_agent_bic_is_read(events: Seq<XmlToken>, text: Seq<char>)
    requires
        spec_parse_run(events).current is Some,
        path_ends(join_path(spec_parse_run(events).path), "DbtrAgt/FinInstnId/BIC"@) || path_ends(
            join_path(spec_parse_run(events).path),
            "DbtrAgt/FinInstnId/BICFI"@,
        ),
    ensures
        ({
            let before = spec_instruction(spec_parse_run(events));
            let after = spec_instruction(
                spec_parse_run(events.push(XmlToken::Text(text)).push(XmlToken::End("CdtTrfTxInf"@))),
            );
            &&& after.transactions.len() == before.transactions.len() + 1
            &&& after.transactions.last().debtor_bic == Some(text)
        }),
{
    let e1 = events.push(XmlToken::Text(text));
    let e2 = e1.push(XmlToken::End("CdtTrfTxInf"@));
    assert(e1.drop_last() =~= events);
    assert(e2.drop_last() =~= e1);
    assert(spec_parse_run(e1) == spec_parse_step(spec_parse_run(events), XmlToken::Text(text)));
    assert(spec_parse_run(e2) == spec_parse_step(spec_parse_run(e1), XmlToken::End("CdtTrfTxInf"@)));
    lemma_debtor_agent_bic_step(spec_parse_run(events), text);
}

/// The payment instruction a parse state holds.
pub open spec fn spec_instruction(s: ParseFields) -> InstructionFields {
    InstructionFields {
        msg_id: s.msg_id,
        creation_date_time: s.creation_date_time,
        nb_of_txs: s.nb_of_txs,
        ctrl_sum: s.ctrl_sum,
        transactions: s.transactions,
    }
}

/// No event of the stream ends the document.
pub open spec fn no_eof(events: Seq<XmlToken>) -> bool {
    forall|i: int| 0 <= i < events.len() ==> !(#[trigger] events[i] is Eof)
}

/// A pain.001 parse in progress.
pub struct Pain001Parser {
    msg_id: String,
    creation_date_time: String,
    nb_of_txs: u32,
    ctrl_sum: Option<String>,
    transactions: Vec<CreditTransfer>,
    path: Vec<String>,
    current: Option<CreditTransferBuilder>,
}

impl View for Pain001Parser {
    type V = ParseFields;

    closed spec fn view(&self) -> ParseFields {
        ParseFields {
            msg_id: self.msg_id@,
            creation_date_time: self.creation_date_time@,
            nb_of_txs: self.nb_of_txs,
            ctrl_sum: opt_chars(self.ctrl_sum),
            transactions: self.transactions@.map_values(|t: CreditTransfer| t@),
            path: self.path@.map_values(|n: String| n@),
            current: match self.current {
                Some(b) => Some(b@),
                None => None,
            },
        }
    }
}

/// Joins the names with `/`.
fn join_names(names: &Vec<String>) -> (r: String)
    ensures
        r@ == join_path(names@.map_values(|n: String| n@)),
{
    let ghost all = names@.map_values(|n: String| n@);
    let mut out = String::new();
    let mut i: usize = 0;
    while i < names.len()
        invariant
            i <= names.len(),
            all == names@.map_values(|n: String| n@),
            out@ == join_path(all.take(i as int)),
        decreases names.len() - i,
    {
        proof {
            assert(all.take(i + 1).drop_last() =~= all.take(i as int));
            assert(all.take(i + 1).last() == names@[i as int]@);
            if i == 0 {
                assert(all.take(1) =~= seq![names@[0]@]);
            }
        }
        if i > 0 {
            out.append("/");
        } else {
            assert(Seq::<char>::empty() + names@[0]@ =~= names@[0]@);
        }
        out.append(names[i].as_str());
        i = i + 1;
    }
    assert(all.take(names@.len() as int) =~= all);
    out
}

impl Pain001Parser {
    /// A parse before any event.
    pub fn new() -> (r: Pain001Parser)
        ensures
            r@ == initial_parse(),
    {
        let r = Pain001Parser {
            msg_id: String::new(),
            creation_date_time: String::new(),
            nb_of_txs: 0,
            ctrl_sum: None,
            transactions: Vec::new(),
            path: Vec::new(),
            current: None,
        };
        assert(r@.transactions =~= Seq::<TransferFields>::empty());
        assert(r@.path =~= Seq::<Seq<char>>::empty());
        r
    }

    /// Takes one event.
    pub fn step(&mut self, event: &XmlEvent)
        ensures
            final(self)@ == spec_parse_step(old(self)@, event@),
    {
        reveal(spec_parse_step);
        match event {
            XmlEvent::Start(name, tag) => {
                let opens_transfer = *name == String::from_str("CdtTrfTxInf");
                let ghost old_path = self@.path;
                self.path.push(name.clone());
                assert(self@.path =~= old_path.push(self.path@.last()@));
                if opens_transfer {
                    self.current = Some(CreditTransferBuilder::new());
                }
                if self.current.is_some() {
                    let path = join_names(&self.path);
                    let name_len = name.as_str().as_bytes().len();
                    if ends_with(path.as_str(), "InstdAmt") && name_len <= tag.as_str().as_bytes().len() {
                        match start_attribute(tag.as_str(), name_len, "Ccy") {
                            AttributeRead::Value(code) => {
                                let mut builder = self.current.take().unwrap();
                                builder.set_currency(code);
                                self.current = Some(builder);
                            },
                            _ => {},
                        }
                    }
                }
            },
            XmlEvent::End(name) => {
                if *name == String::from_str("CdtTrfTxInf") {
                    if self.current.is_some() {
                        let ghost old_tx = self@.transactions;
                        let builder = self.current.take().unwrap();
                        let built = builder.build();
                        self.transactions.push(built);
                        assert(self@.transactions =~= old_tx.push(spec_build(builder@)));
                    }
                }
                let ghost before = self@.path;
                if self.path.len() > 0 {
                    self.path.pop();
                    assert(self@.path =~= before.drop_last());
                }
            },
            XmlEvent::Text(text) => {
                self.read_text(text.clone());
            },
            XmlEvent::Eof => {},
            XmlEvent::Other => {},
        }
    }

    /// Takes character data read at the open path.
    fn read_text(&mut self, text: String)
        ensures
            final(self)@ == spec_read_text(old(self)@, text@),
    {
        let path = join_names(&self.path);
        if ends_with(path.as_str(), "GrpHdr/MsgId") {
            self.msg_id = text;
        } else if ends_with(path.as_str(), "GrpHdr/CreDtTm") {
            self.creation_date_time = text;
        } else if ends_with(path.as_str(), "GrpHdr/NbOfTxs") {
            self.nb_of_txs = match parse_u32(text.as_str()) {
                Some(n) => n,
                None => 0,
            };
        } else if ends_with(path.as_str(), "GrpHdr/CtrlSum") {
            self.ctrl_sum = Some(text);
        } else {
            match self.current.take() {
                Some(mut builder) => {
                    builder.apply_text(path.as_str(), text.as_str());
                    self.current = Some(builder);
                },
                None => {},
            }
        }
    }

    /// The payment instruction read so far.
    pub fn finish(self) -> (r: PaymentInstruction)
        ensures
            r@ == spec_instruction(self@),
    {
        PaymentInstruction {
            msg_id: self.msg_id,
            creation_date_time: self.creation_date_time,
            nb_of_txs: self.nb_of_txs,
            ctrl_sum: self.ctrl_sum,
            transactions: self.transactions,
        }
    }
}

/// The events as character sequences.
pub open spec fn tokens_of(events: Seq<XmlEvent>) -> Seq<XmlToken> {
    events.map_values(|e: XmlEvent| e@)
}

/// Parses a pain.001 message from its event stream: the events up to the first end of
/// document (or all of them, if none ends it).
pub fn parse_pain001_events(events: &Vec<XmlEvent>) -> (r: PaymentInstruction)
    ensures
        exists|k: int|
            0 <= k <= events@.len() && no_eof(tokens_of(events@).take(k)) && (k == events@.len()
                || events@[k] is Eof) && r@ == spec_instruction(
                spec_parse_run(tokens_of(events@).take(k)),
            ),
{
    let ghost all = tokens_of(events@);
    let mut parser = Pain001Parser::new();
    let mut i: usize = 0;
    while i < events.len()
        invariant
            i <= events.len(),
            all == tokens_of(events@),
            no_eof(all.take(i as int)),
            parser@ == spec_parse_run(all.take(i as int)),
        decreases events.len() - i,
    {
        let event = &events[i];
        if let XmlEvent::Eof = event {
            let r = parser.finish();
            assert(events@[i as int] is Eof);
            return r;
        }
        parser.step(event);
        proof {
            let next = all.take(i + 1);
            assert(next.drop_last() =~= all.take(i as int));
            assert(next.last() == events@[i as int]@);
            assert(no_eof(next)) by {
                assert forall|j: int| 0 <= j < next.len() implies !(#[trigger] next[j] is Eof) by {
                    if j < i {
                        assert(next[j] == all.take(i as int)[j]);
                    }
                }
            }
        }
        i = i + 1;
    }
    assert(all.take(events@.len() as int) =~= all);
    let r = parser.finish();
    let ghost k = events@.len() as int;
    assert(0 <= k <= events@.len() && no_eof(all.take(k)) && (k == events@.len()
        || events@[k] is Eof) && r@ == spec_instruction(spec_parse_run(all.take(k))));
    r
}

/// Why a pain.001 message could not be parsed.
#[derive(Clone, Debug)]
pub enum Pain001Error {
    /// The XML reader failed.
    Xml(XmlReadError),
}

/// Event number `index` of the document, as the parser's reader (whitespace trimmed)
/// returns it; `None` where the reader fails.
pub open spec fn document_event(xml: Seq<char>, index: nat) -> Option<XmlToken> {
    xml_event_at(xml, true, index)
}

/// The reader returns `n` events from the start of the document without an error and
/// without the end of the document.
pub open spec fn reads_cleanly(xml: Seq<char>, n: nat) -> bool {
    reads_content(xml, true, n)
}

/// The first `n` events of the document.
pub open spec fn document_prefix(xml: Seq<char>, n: nat) -> Seq<XmlToken> {
    Seq::new(n, |k: int| document_event(xml, k as nat)->Some_0)
}

/// The document ends after `n` events: they are read cleanly and the next is its end.
pub open spec fn document_ends_at(xml: Seq<char>, n: nat) -> bool {
    reads_cleanly(xml, n) && document_event(xml, n) == Some(XmlToken::Eof)
}

/// The reader fails after `n` clean events.
pub open spec fn read_fails_at(xml: Seq<char>, n: nat) -> bool {
    reads_cleanly(xml, n) && document_event(xml, n) is None
}

/// The parse of a pain.001 document: the instruction built from its events up to its end,
/// or none where the reader fails first.
pub open spec fn spec_parse_pain001(xml: Seq<char>) -> Option<InstructionFields> {
    if exists|n: nat| document_ends_at(xml, n) {
        let n = choose|n: nat| document_ends_at(xml, n);
        Some(spec_instruction(spec_parse_run(document_prefix(xml, n))))
    } else {
        None
    }
}

/// A document ends, fails or runs past its length in one way only.
proof fn lemma_document_outcome_unique(xml: Seq<char>, n: nat, m: nat)
    requires
        reads_cleanly(xml, n),
        reads_cleanly(xml, m),
        document_event(xml, n) is None || document_event(xml, n) == Some(XmlToken::Eof),
    ensures
        m <= n,
        m < n ==> is_content(document_event(xml, m)),
{
    if m > n {
        assert(is_content(document_event(xml, n)));
    }
    if m < n {
        assert(is_content(document_event(xml, m)));
    }
}

/// The document's prefix grows by the event just read.
proof fn lemma_document_prefix_push(xml: Seq<char>, n: nat)
    requires
        document_event(xml, n) is Some,
    ensures
        document_prefix(xml, n + 1) == document_prefix(xml, n).push(document_event(xml, n)->Some_0),
{
    assert(document_prefix(xml, n + 1) =~= document_prefix(xml, n).push(
        document_event(xml, n)->Some_0,
    ));
}

/// Parse a pain.001 (Customer Credit Transfer Initiation) XML message.
///
/// The instruction returned is what the state machine builds from the events the XML
/// reader produces for this document before its end; the parse fails exactly where the
/// reader cannot read the next event. Every event but the end consumes input, so the
/// reader reaches one or the other within one event per character.
pub fn parse_pain001(xml: &str) -> (r: Result<PaymentInstruction, Pain001Error>)
    ensures
        r is Ok <==> spec_parse_pain001(xml@) is Some,
        r is Ok ==> r->Ok_0@ == spec_parse_pain001(xml@)->Some_0,
        forall|n: nat|
            document_ends_at(xml@, n) ==> r is Ok && r->Ok_0@ == spec_instruction(
                spec_parse_run(#[trigger] document_prefix(xml@, n)),
            ),
        r is Err <==> exists|n: nat| #[trigger] read_fails_at(xml@, n),
{
    let mut cursor = xml_reader(xml);
    enable_trim_text(&mut cursor);
    let mut parser = Pain001Parser::new();
    let ghost src = xml@;
    loop
        invariant
            cursor.source() == src,
            src == xml@,
            cursor.trimmed(),
            cursor.consumed() <= src.len(),
            reads_cleanly(src, cursor.consumed()),
            parser@ == spec_parse_run(document_prefix(src, cursor.consumed())),
        decreases src.len() - cursor.consumed(),
    {
        let ghost k = cursor.consumed();
        let event = match read_xml_event(&mut cursor) {
            Ok(e) => e,
            Err(e) => {
                proof {
                    assert(read_fails_at(src, k));
                    assert forall|n: nat| document_ends_at(src, n) implies false by {
                        lemma_document_outcome_unique(src, k, n);
                        lemma_document_outcome_unique(src, n, k);
                    }
                }
                return Err(Pain001Error::Xml(e));
            },
        };
        if let XmlEvent::Eof = event {
            let r = parser.finish();
            proof {
                assert(document_ends_at(src, k));
                assert forall|n: nat| document_ends_at(src, n) implies n == k by {
                    lemma_document_outcome_unique(src, k, n);
                    lemma_document_outcome_unique(src, n, k);
                }
                assert forall|n: nat| read_fails_at(src, n) implies false by {
                    lemma_document_outcome_unique(src, k, n);
                    lemma_document_outcome_unique(src, n, k);
                }
            }
            return Ok(r);
        }
        proof {
            assert(reads_cleanly(src, k + 1)) by {
                assert forall|j: nat| j < k + 1 implies is_content(
                    #[trigger] xml_event_at(src, true, j),
                ) by {
                    if j < k {
                        assert(is_content(xml_event_at(src, true, j)));
                    }
                }
            }
            lemma_document_prefix_push(src, k);
        }
        parser.step(&event);
        proof {
            let next = document_prefix(src, (k + 1) as nat);
            assert(next.drop_last() =~= document_prefix(src, k));
            assert(next.last() == event@);
        }
    }
}

} // verus!
