use magnus::gateway::api::{
    authorize, health_response, initiate_response, intake_from_instruction, payment_intake,
    statement_entries, statement_id, statement_response, InitiateError,
};
use magnus::gateway::chain::{
    block_number_of, hash_param, parse_payment_log, plan_poll, ChainClient, PollPlan,
};
use magnus::gateway::ipfs::{compress, decompress, IpfsClient};
use magnus::gateway::storage::{PaymentRecord, PaymentStatus};
use magnus::iso20022::builder::{build_camt053, build_camt054, build_pacs008};
use magnus::iso20022::parser::{
    ends_with, parse_pain001, parse_pain001_events, parse_u32, CreditTransferBuilder,
    Pain001Parser,
};
use magnus::iso20022::types::{
    Account, Amount, CreditTransfer, NotificationEntry, Party, SettlementData, StatementEntry,
};
use magnus::iso20022::xml::XmlEvent;
use magnus::primitives::{Address, B256};

const SAMPLE_PAIN001: &str = r#"<?xml version="1.0" encoding="UTF-8"?>
<Document xmlns="urn:iso:std:iso:20022:tech:xsd:pain.001.001.03">
  <CstmrCdtTrfInitn>
    <GrpHdr>
      <MsgId>MSG-001</MsgId>
      <CreDtTm>2026-02-15T10:30:00</CreDtTm>
      <NbOfTxs>1</NbOfTxs>
      <CtrlSum>1000.00</CtrlSum>
    </GrpHdr>
    <PmtInf>
      <CdtTrfTxInf>
        <PmtId>
          <EndToEndId>E2E-PAY-001</EndToEndId>
        </PmtId>
        <Amt>
          <InstdAmt Ccy="USD">1000.00</InstdAmt>
        </Amt>
        <Dbtr>
          <Nm>Alice Corp</Nm>
        </Dbtr>
        <DbtrAcct>
          <Id><IBAN>VN12345678901234</IBAN></Id>
        </DbtrAcct>
        <Cdtr>
          <Nm>Bob Ltd</Nm>
        </Cdtr>
        <CdtrAcct>
          <Id><IBAN>VN98765432109876</IBAN></Id>
        </CdtrAcct>
        <Purp>
          <Cd>SUPP</Cd>
        </Purp>
        <RmtInf>
          <Ustrd>Invoice INV-2026-001</Ustrd>
        </RmtInf>
      </CdtTrfTxInf>
    </PmtInf>
  </CstmrCdtTrfInitn>
</Document>"#;

fn s(v: &str) -> String {
    v.to_string()
}

#[test]
fn test_build_pacs008_roundtrip() {
    let settlement = SettlementData {
        instruction: CreditTransfer {
            end_to_end_id: s("E2E-001"),
            amount: Amount { currency: s("USD"), value: s("500.00") },
            debtor: Party { name: s("Alice"), bic: None },
            debtor_account: Account { id: s("0xAliceAddr") },
            creditor: Party { name: s("Bob"), bic: None },
            creditor_account: Account { id: s("0xBobAddr") },
            purpose_code: Some(s("SALA")),
            remittance_info: Some(s("January salary")),
        },
        chain_tx_hash: s("0xabc123"),
        settlement_time: s("2026-02-15T12:00:00"),
        instructing_agent: s("MAGNUSVNX"),
        instructed_agent: s("VNBKVNVX"),
    };

    let xml = build_pacs008(&settlement);
    assert!(xml.contains("E2E-001"));
    assert!(xml.contains("500.00"));
    assert!(xml.contains("Alice"));
    assert!(xml.contains("Bob"));
    assert!(xml.contains("SALA"));
    assert!(xml.contains("January salary"));
    assert!(xml.contains("0xabc123"));
    assert!(xml.contains("pacs.008.001.02"));
}

#[test]
fn pacs008_layout_is_exact() {
    let settlement = SettlementData {
        instruction: CreditTransfer {
            end_to_end_id: s("E1"),
            amount: Amount { currency: s("VND"), value: s("7") },
            debtor: Party { name: s("D"), bic: None },
            debtor_account: Account { id: s("DA") },
            creditor: Party { name: s("C"), bic: None },
            creditor_account: Account { id: s("CA") },
            purpose_code: None,
            remittance_info: None,
        },
        chain_tx_hash: s("0x01"),
        settlement_time: s("2026-03-01T00:00:00Z"),
        instructing_agent: s("AGTA"),
        instructed_agent: s("AGTB"),
    };
    let expected = r#"<?xml version="1.0" encoding="UTF-8"?>
<Document xmlns="urn:iso:std:iso:20022:tech:xsd:pacs.008.001.02">
  <FIToFICstmrCdtTrf>
    <GrpHdr>
      <MsgId>PACS008-E1</MsgId>
      <CreDtTm>2026-03-01T00:00:00Z</CreDtTm>
      <NbOfTxs>1</NbOfTxs>
      <SttlmInf>
        <SttlmMtd>CLRG</SttlmMtd>
      </SttlmInf>
      <InstgAgt>
        <FinInstnId><BICFI>AGTA</BICFI></FinInstnId>
      </InstgAgt>
      <InstdAgt>
        <FinInstnId><BICFI>AGTB</BICFI></FinInstnId>
      </InstdAgt>
    </GrpHdr>
    <CdtTrfTxInf>
      <PmtId>
        <EndToEndId>E1</EndToEndId>
        <TxId>0x01</TxId>
      </PmtId>
      <IntrBkSttlmAmt Ccy="VND">7</IntrBkSttlmAmt>
      <IntrBkSttlmDt>2026-03-01</IntrBkSttlmDt>
      <Dbtr>
        <Nm>D</Nm>
      </Dbtr>
      <DbtrAcct>
        <Id><Othr><Id>DA</Id></Othr></Id>
      </DbtrAcct>
      <Cdtr>
        <Nm>C</Nm>
      </Cdtr>
      <CdtrAcct>
        <Id><Othr><Id>CA</Id></Othr></Id>
      </CdtrAcct>
    </CdtTrfTxInf>
  </FIToFICstmrCdtTrf>
</Document>"#;
    assert_eq!(build_pacs008(&settlement), expected);
}

fn statement_entry(entry_ref: &str, value: &str, cd: &str, e2e: &str, remittance: Option<&str>) -> StatementEntry {
    StatementEntry {
        entry_ref: s(entry_ref),
        amount: Amount { currency: s("USD"), value: s(value) },
        cd_indicator: s(cd),
        booking_date: s("2026-02-15"),
        value_date: s("2026-02-15"),
        end_to_end_id: s(e2e),
        remittance_info: remittance.map(s),
    }
}

#[test]
fn test_build_camt053() {
    let entries = vec![statement_entry("ENT-001", "1000.00", "CRDT", "E2E-001", Some("Payment received"))];

    let xml = build_camt053("STMT-001", "0xAccountAddr", &entries, "2026-02-15T18:00:00");
    assert!(xml.contains("STMT-001"));
    assert!(xml.contains("0xAccountAddr"));
    assert!(xml.contains("1000.00"));
    assert!(xml.contains("CRDT"));
    assert!(xml.contains("E2E-001"));
    assert!(xml.contains("camt.053.001.02"));
}

#[test]
fn camt053_lists_every_entry_in_order() {
    let entries = vec![
        statement_entry("ENT-A", "1.00", "CRDT", "E2E-A", None),
        statement_entry("ENT-B", "2.00", "DBIT", "E2E-B", Some("memo")),
    ];
    let xml = build_camt053("S", "ACC", &entries, "T");
    let a = xml.find("<NtryRef>ENT-A</NtryRef>").unwrap();
    let b = xml.find("<NtryRef>ENT-B</NtryRef>").unwrap();
    assert!(a < b);
    assert_eq!(xml.matches("<Ntry>").count(), 2);
    assert_eq!(xml.matches("<RmtInf>").count(), 1);
    let empty = build_camt053("S", "ACC", &[], "T");
    assert!(!empty.contains("<Ntry>"));
    assert!(empty.ends_with("</Acct>\n    </Stmt>\n  </BkToCstmrStmt>\n</Document>"));
}

#[test]
fn test_build_camt054() {
    let notification = NotificationEntry {
        ntfctn_id: s("NTFY-001"),
        account_id: s("0xBobAddr"),
        entry: statement_entry("ENT-002", "250.00", "DBIT", "E2E-002", None),
    };

    let xml = build_camt054(&notification, "2026-02-15T12:30:00");
    assert!(xml.contains("NTFY-001"));
    assert!(xml.contains("0xBobAddr"));
    assert!(xml.contains("250.00"));
    assert!(xml.contains("DBIT"));
    assert!(xml.contains("camt.054.001.02"));
    assert!(xml.contains("<MsgId>NTFCTN-NTFY-001</MsgId>"));
}

#[test]
fn test_parse_pain001() {
    let instruction = parse_pain001(SAMPLE_PAIN001).unwrap();
    assert_eq!(instruction.msg_id, "MSG-001");
    assert_eq!(instruction.nb_of_txs, 1);
    assert_eq!(instruction.ctrl_sum.as_deref(), Some("1000.00"));
    assert_eq!(instruction.transactions.len(), 1);

    let tx = &instruction.transactions[0];
    assert_eq!(tx.end_to_end_id, "E2E-PAY-001");
    assert_eq!(tx.amount.value, "1000.00");
    assert_eq!(tx.debtor.name, "Alice Corp");
    assert_eq!(tx.debtor_account.id, "VN12345678901234");
    assert_eq!(tx.creditor.name, "Bob Ltd");
    assert_eq!(tx.creditor_account.id, "VN98765432109876");
    assert_eq!(tx.purpose_code.as_deref(), Some("SUPP"));
    assert_eq!(tx.remittance_info.as_deref(), Some("Invoice INV-2026-001"));
}

#[test]
fn parsed_transfer_defaults_currency_to_usd() {
    let instruction = parse_pain001(SAMPLE_PAIN001).unwrap();
    assert_eq!(instruction.transactions[0].amount.currency, "USD");
    assert_eq!(instruction.creation_date_time, "2026-02-15T10:30:00");
}

#[test]
fn instructed_amount_currency_comes_from_ccy_attribute() {
    let xml = r#"<Document><CstmrCdtTrfInitn><PmtInf><CdtTrfTxInf>
        <PmtId><EndToEndId>E-EUR</EndToEndId></PmtId>
        <Amt><InstdAmt Ccy="EUR">5.00</InstdAmt></Amt>
        </CdtTrfTxInf><CdtTrfTxInf>
        <Amt><InstdAmt>6.00</InstdAmt></Amt>
        </CdtTrfTxInf></PmtInf></CstmrCdtTrfInitn></Document>"#;
    let instruction = parse_pain001(xml).unwrap();
    assert_eq!(instruction.transactions.len(), 2);
    assert_eq!(instruction.transactions[0].amount.value, "5.00");
    assert_eq!(instruction.transactions[0].amount.currency, "EUR");
    assert_eq!(instruction.transactions[1].amount.value, "6.00");
    assert_eq!(instruction.transactions[1].amount.currency, "USD");
}

#[test]
fn ccy_attribute_outside_an_instructed_amount_is_ignored() {
    let mut parser = Pain001Parser::new();
    parser.step(&XmlEvent::Start(s("CdtTrfTxInf"), s("CdtTrfTxInf")));
    parser.step(&XmlEvent::Start(s("IntrBkSttlmAmt"), s("IntrBkSttlmAmt Ccy=\"VND\"")));
    parser.step(&XmlEvent::End(s("IntrBkSttlmAmt")));
    parser.step(&XmlEvent::End(s("CdtTrfTxInf")));
    let instruction = parser.finish();
    assert_eq!(instruction.transactions[0].amount.currency, "USD");
}

#[test]
fn instructed_amount_ccy_is_read_by_the_parser() {
    let mut parser = Pain001Parser::new();
    parser.step(&XmlEvent::Start(s("CdtTrfTxInf"), s("CdtTrfTxInf")));
    parser.step(&XmlEvent::Start(s("InstdAmt"), s("InstdAmt Ccy='JPY' Other=\"x\"")));
    parser.step(&XmlEvent::End(s("InstdAmt")));
    parser.step(&XmlEvent::End(s("CdtTrfTxInf")));
    parser.step(&XmlEvent::Start(s("CdtTrfTxInf"), s("CdtTrfTxInf")));
    // Attributes that cannot be read up to `Ccy` leave the currency unread.
    parser.step(&XmlEvent::Start(s("InstdAmt"), s("InstdAmt Bad Ccy=\"EUR\"")));
    parser.step(&XmlEvent::End(s("InstdAmt")));
    parser.step(&XmlEvent::End(s("CdtTrfTxInf")));
    let instruction = parser.finish();
    assert_eq!(instruction.transactions[0].amount.currency, "JPY");
    assert_eq!(instruction.transactions[1].amount.currency, "USD");
}

#[test]
fn unreadable_ccy_attribute_in_a_document_defaults_to_usd() {
    let xml = r#"<Document><CdtTrfTxInf><Amt><InstdAmt Ccy=EUR>5.00</InstdAmt></Amt></CdtTrfTxInf></Document>"#;
    let instruction = parse_pain001(xml).unwrap();
    assert_eq!(instruction.transactions[0].amount.value, "5.00");
    assert_eq!(instruction.transactions[0].amount.currency, "USD");
}

#[test]
fn malformed_xml_is_rejected() {
    assert!(parse_pain001("<Document><GrpHdr></Document>").is_err());
}

#[test]
fn test_pain001_parse_then_build_pacs008() {
    // Round-trip: parse pain.001 → build pacs.008 → verify fields
    let pain001 = r#"<?xml version="1.0" encoding="UTF-8"?>
<Document xmlns="urn:iso:std:iso:20022:tech:xsd:pain.001.001.03">
  <CstmrCdtTrfInitn>
    <GrpHdr>
      <MsgId>ROUND-TRIP-001</MsgId>
      <CreDtTm>2026-02-15T10:00:00</CreDtTm>
      <NbOfTxs>1</NbOfTxs>
    </GrpHdr>
    <PmtInf>
      <CdtTrfTxInf>
        <PmtId><EndToEndId>RT-E2E-001</EndToEndId></PmtId>
        <Amt><InstdAmt Ccy="USD">750.00</InstdAmt></Amt>
        <Dbtr><Nm>Sender Corp</Nm></Dbtr>
        <DbtrAcct><Id><IBAN>VN11111111111111</IBAN></Id></DbtrAcct>
        <Cdtr><Nm>Receiver Ltd</Nm></Cdtr>
        <CdtrAcct><Id><IBAN>VN22222222222222</IBAN></Id></CdtrAcct>
        <Purp><Cd>SUPP</Cd></Purp>
        <RmtInf><Ustrd>PO-2026-100</Ustrd></RmtInf>
      </CdtTrfTxInf>
    </PmtInf>
  </CstmrCdtTrfInitn>
</Document>"#;

    let instruction = parse_pain001(pain001).unwrap();
    assert_eq!(instruction.transactions.len(), 1);

    let tx = instruction.transactions[0].clone();
    let settlement = SettlementData {
        instruction: tx,
        chain_tx_hash: s("0xdeadbeef"),
        settlement_time: s("2026-02-15T10:05:00"),
        instructing_agent: s("MAGNUSVNX"),
        instructed_agent: s("BANKUSVN"),
    };

    let pacs008 = build_pacs008(&settlement);
    assert!(pacs008.contains("RT-E2E-001"));
    assert!(pacs008.contains("750.00"));
    assert!(pacs008.contains("Sender Corp"));
    assert!(pacs008.contains("Receiver Ltd"));
    assert!(pacs008.contains("SUPP"));
    assert!(pacs008.contains("PO-2026-100"));
    assert!(pacs008.contains("0xdeadbeef"));
}

#[test]
fn event_stream_parse_stops_at_end_of_document() {
    let events = vec![
        XmlEvent::Start(s("GrpHdr"), s("GrpHdr")),
        XmlEvent::Start(s("MsgId"), s("MsgId")),
        XmlEvent::Text(s("M-1")),
        XmlEvent::End(s("MsgId")),
        XmlEvent::Start(s("NbOfTxs"), s("NbOfTxs")),
        XmlEvent::Text(s("+12")),
        XmlEvent::End(s("NbOfTxs")),
        XmlEvent::End(s("GrpHdr")),
        XmlEvent::Start(s("CdtTrfTxInf"), s("CdtTrfTxInf")),
        XmlEvent::Start(s("Cdtr"), s("Cdtr")),
        XmlEvent::Start(s("Nm"), s("Nm")),
        XmlEvent::Text(s("Carol")),
        XmlEvent::End(s("Nm")),
        XmlEvent::End(s("Cdtr")),
        XmlEvent::End(s("CdtTrfTxInf")),
        XmlEvent::Eof,
        XmlEvent::Start(s("CdtTrfTxInf"), s("CdtTrfTxInf")),
        XmlEvent::End(s("CdtTrfTxInf")),
    ];
    let instruction = parse_pain001_events(&events);
    assert_eq!(instruction.msg_id, "M-1");
    assert_eq!(instruction.nb_of_txs, 12);
    assert_eq!(instruction.transactions.len(), 1);
    assert_eq!(instruction.transactions[0].creditor.name, "Carol");
    assert_eq!(instruction.transactions[0].debtor.name, "");
}

#[test]
fn text_outside_a_transfer_is_ignored() {
    let mut parser = Pain001Parser::new();
    parser.step(&XmlEvent::Start(s("Dbtr"), s("Dbtr")));
    parser.step(&XmlEvent::Start(s("Nm"), s("Nm")));
    parser.step(&XmlEvent::Text(s("Nobody")));
    parser.step(&XmlEvent::End(s("Nm")));
    parser.step(&XmlEvent::End(s("Dbtr")));
    parser.step(&XmlEvent::End(s("Extra")));
    let instruction = parser.finish();
    assert!(instruction.transactions.is_empty());
    assert_eq!(instruction.ctrl_sum, None);
}

#[test]
fn builder_records_agents_and_other_accounts() {
    let mut b = CreditTransferBuilder::new();
    b.apply_text("CdtTrfTxInf/DbtrAgt/FinInstnId/BICFI", "BANKAAA");
    b.apply_text("CdtTrfTxInf/CdtrAgt/FinInstnId/BIC", "BANKBBB");
    b.apply_text("CdtTrfTxInf/DbtrAcct/Id/Othr/Id", "0xD");
    b.apply_text("CdtTrfTxInf/CdtrAcct/Id/Othr/Id", "0xC");
    b.apply_text("CdtTrfTxInf/Unknown", "ignored");
    let t = b.build();
    assert_eq!(t.debtor.bic.as_deref(), Some("BANKAAA"));
    assert_eq!(t.creditor.bic.as_deref(), Some("BANKBBB"));
    assert_eq!(t.debtor_account.id, "0xD");
    assert_eq!(t.creditor_account.id, "0xC");
    assert_eq!(t.amount.currency, "USD");
}

#[test]
fn number_of_transactions_parses_like_u32() {
    assert_eq!(parse_u32("42"), Some(42));
    assert_eq!(parse_u32("+7"), Some(7));
    assert_eq!(parse_u32("4294967295"), Some(u32::MAX));
    assert_eq!(parse_u32("4294967296"), None);
    assert_eq!(parse_u32(""), None);
    assert_eq!(parse_u32("+"), None);
    assert_eq!(parse_u32("-1"), None);
    assert_eq!(parse_u32("1a"), None);
}

#[test]
fn ends_with_compares_bytes() {
    assert!(ends_with("Document/GrpHdr/MsgId", "GrpHdr/MsgId"));
    assert!(!ends_with("MsgId", "GrpHdr/MsgId"));
    assert!(ends_with("abc", ""));
}

#[test]
fn test_compress_decompress_roundtrip() {
    let original = b"<Document>Hello ISO 20022</Document>";
    let compressed = compress(original).unwrap();
    assert!(compressed.len() < original.len() + 20); // gzip has header overhead for small data

    let decompressed = decompress(&compressed).unwrap();
    assert_eq!(decompressed, original);
}

#[test]
fn test_compress_large_xml() {
    // Simulate a real XML document
    let xml = "<Document>".to_string() + &"<Entry>data</Entry>".repeat(1000) + "</Document>";
    let compressed = compress(xml.as_bytes()).unwrap();

    // Large repetitive XML should compress well
    assert!(compressed.len() < xml.len() / 5);

    let decompressed = decompress(&compressed).unwrap();
    assert_eq!(decompressed, xml.as_bytes());
}

#[test]
fn compressed_output_differs_from_input_and_garbage_is_rejected() {
    let data = b"payload";
    let compressed = compress(data).unwrap();
    assert_ne!(&compressed[..], &data[..]);
    assert_eq!(&compressed[..2], &[0x1f, 0x8b]);
    assert!(decompress(b"not gzip at all").is_err());
}

#[test]
fn ipfs_endpoints() {
    let client = IpfsClient::new(s("http://localhost:5001"), s("http://localhost:8080"));
    assert_eq!(client.add_endpoint(), "http://localhost:5001/api/v0/add");
    assert_eq!(client.content_url("QmX"), "http://localhost:8080/ipfs/QmX");
    assert_eq!(client.pin_endpoint("QmX"), "http://localhost:5001/api/v0/pin/add?arg=QmX");
}

#[test]
fn payment_status_text_round_trips() {
    for status in [
        PaymentStatus::Received,
        PaymentStatus::Submitted,
        PaymentStatus::Confirmed,
        PaymentStatus::Forwarded,
        PaymentStatus::Failed,
    ] {
        assert_eq!(PaymentStatus::from_str(status.as_str()), status);
    }
    assert_eq!(PaymentStatus::Confirmed.as_str(), "confirmed");
    assert_eq!(PaymentStatus::from_str("unknown"), PaymentStatus::Received);
}

#[test]
fn chain_client_keeps_its_url() {
    let client = ChainClient::new(s("https://rpc.magnus.network"));
    assert_eq!(client.http_url(), "https://rpc.magnus.network");
    let copy = client.clone();
    assert_eq!(copy.http_url(), "https://rpc.magnus.network");
}

#[test]
fn test_parse_payment_log_placeholder() {
    let event = parse_payment_log(B256 { bytes: [0u8; 32] }, 100, Address::zero(), &[], &[]);
    assert!(event.is_some());
    let event = event.unwrap();
    assert_eq!(event.block_number, 100);
    assert_eq!(event.amount, "0");
    assert!(event.message_hash.is_none());
}

fn abi_u64_word(v: u64) -> [u8; 32] {
    let mut w = [0u8; 32];
    w[24..].copy_from_slice(&v.to_be_bytes());
    w
}

fn abi_payment_data(amount: [u8; 32], texts: [&str; 3], message_hash: [u8; 32]) -> Vec<u8> {
    let mut head = Vec::new();
    let mut tail = Vec::new();
    head.extend_from_slice(&amount);
    for text in texts {
        head.extend_from_slice(&abi_u64_word((5 * 32 + tail.len()) as u64));
        tail.extend_from_slice(&abi_u64_word(text.len() as u64));
        let mut bytes = text.as_bytes().to_vec();
        while bytes.len() % 32 != 0 {
            bytes.push(0);
        }
        tail.extend_from_slice(&bytes);
    }
    head.extend_from_slice(&message_hash);
    head.extend_from_slice(&tail);
    head
}

fn address_topic(a: Address) -> B256 {
    let mut bytes = [0u8; 32];
    bytes[12..].copy_from_slice(&a.bytes);
    B256 { bytes }
}

#[test]
fn payment_log_topics_and_data_are_decoded() {
    let from = Address::repeat_byte(0x11);
    let to = Address::repeat_byte(0x22);
    let token = Address::repeat_byte(0x33);
    let mut hash = [0u8; 32];
    hash[31] = 0xab;
    let mut amount = [0u8; 32];
    amount[0] = 1;
    amount[24..].copy_from_slice(&1_000_000u64.to_be_bytes());
    let data = abi_payment_data(amount, ["E2E-42", "SUPP", "Invoice 7 \u{e9}t\u{e9}"], hash);
    let topics = [B256 { bytes: [0x77; 32] }, address_topic(from), address_topic(to)];
    let event = parse_payment_log(B256 { bytes: [9u8; 32] }, 12, token, &topics, &data).unwrap();
    assert_eq!(event.tx_hash, B256 { bytes: [9u8; 32] });
    assert_eq!(event.block_number, 12);
    assert_eq!(event.token, token);
    assert_eq!(event.from, from);
    assert_eq!(event.to, to);
    assert_eq!(event.amount, "452312848583266388373324160190187140051835877600158453279131187530911662656");
    assert_eq!(event.end_to_end_id, "E2E-42");
    assert_eq!(event.purpose_code, "SUPP");
    assert_eq!(event.remittance_info, "Invoice 7 \u{e9}t\u{e9}");
    assert_eq!(event.message_hash.as_deref(), Some("0x00000000000000000000000000000000000000000000000000000000000000ab"));
}

#[test]
fn payment_log_fields_outside_the_data_keep_defaults() {
    let mut data = abi_payment_data(abi_u64_word(5), ["A", "B", "C"], [0u8; 32]);
    // Point the end-to-end ID's offset past the end of the data.
    data[32..64].copy_from_slice(&abi_u64_word(10_000));
    // Make the purpose code invalid UTF-8.
    let purpose_at = 5 * 32 + 2 * 32 + 32;
    data[purpose_at] = 0xff;
    let event = parse_payment_log(B256 { bytes: [0u8; 32] }, 1, Address::zero(), &[], &data).unwrap();
    assert_eq!(event.from, Address::zero());
    assert_eq!(event.to, Address::zero());
    assert_eq!(event.amount, "5");
    assert_eq!(event.end_to_end_id, "");
    assert_eq!(event.purpose_code, "");
    assert_eq!(event.remittance_info, "C");
    assert!(event.message_hash.is_none());
}

#[test]
fn block_numbers_read_as_hex() {
    assert_eq!(block_number_of(Some("0x1a")), 26);
    assert_eq!(block_number_of(Some("0x0x10")), 16);
    assert_eq!(block_number_of(Some("ff")), 255);
    assert_eq!(block_number_of(Some("0xzz")), 0);
    assert_eq!(block_number_of(Some("0x")), 0);
    assert_eq!(block_number_of(Some("0xffffffffffffffff")), u64::MAX);
    assert_eq!(block_number_of(Some("0x10000000000000000")), 0);
    assert_eq!(block_number_of(None), 0);
}

#[test]
fn poll_plans_fetch_only_new_blocks() {
    assert!(matches!(plan_poll(10, 10), PollPlan::UpToDate));
    assert!(matches!(plan_poll(10, 3), PollPlan::UpToDate));
    match plan_poll(9, 26) {
        PollPlan::FetchLogs { from_block, to_block, current_block } => {
            assert_eq!(from_block, "0xa");
            assert_eq!(to_block, "0x1a");
            assert_eq!(current_block, 26);
        }
        PollPlan::UpToDate => panic!("expected a fetch"),
    }
}

#[test]
fn transaction_hash_parameter_is_full_width_hex() {
    let mut bytes = [0u8; 32];
    bytes[0] = 0xab;
    bytes[31] = 0x01;
    let p = hash_param(&B256 { bytes });
    assert_eq!(p.len(), 66);
    assert!(p.starts_with("0xab00"));
    assert!(p.ends_with("0001"));
}

#[test]
fn api_key_authorization() {
    assert!(authorize(Some("k"), Some("k")));
    assert!(!authorize(Some("k"), Some("x")));
    assert!(!authorize(Some("k"), None));
    assert!(authorize(None, None));
    assert!(authorize(None, Some("anything")));
}

#[test]
fn initiation_takes_first_transfer() {
    let intake = payment_intake(SAMPLE_PAIN001).unwrap();
    assert_eq!(intake.end_to_end_id, "E2E-PAY-001");
    assert_eq!(intake.debtor, "Alice Corp");
    let response = initiate_response(intake.end_to_end_id, 7);
    assert_eq!(response.status, "received");
    assert_eq!(response.record_id, 7);
}

#[test]
fn initiation_without_transfers_is_refused() {
    let xml = "<Document><CstmrCdtTrfInitn><GrpHdr><MsgId>M</MsgId></GrpHdr></CstmrCdtTrfInitn></Document>";
    assert!(matches!(payment_intake(xml), Err(InitiateError::NoCreditTransfers)));
    let instruction = parse_pain001(xml).unwrap();
    assert!(matches!(intake_from_instruction(&instruction), Err(InitiateError::NoCreditTransfers)));
    assert!(matches!(payment_intake("<a><b></a>"), Err(InitiateError::InvalidPain001(_))));
}

fn record(e2e: &str, created: &str) -> PaymentRecord {
    PaymentRecord {
        id: 1,
        end_to_end_id: s(e2e),
        status: PaymentStatus::Received,
        chain_tx_hash: None,
        ipfs_hash: None,
        account: s("0xAccountAddress"),
        created_at: s(created),
        forwarded_at: None,
    }
}

#[test]
fn statements_list_records_as_zero_credits() {
    let records = vec![record("E1", "2026-01-01"), record("E2", "2026-01-02")];
    let entries = statement_entries(&records);
    assert_eq!(entries.len(), 2);
    assert_eq!(entries[1].entry_ref, "E2");
    assert_eq!(entries[1].amount.value, "0.00");
    assert_eq!(entries[1].amount.currency, "USD");
    assert_eq!(entries[1].cd_indicator, "CRDT");
    assert_eq!(entries[1].booking_date, "2026-01-02");
    assert_eq!(statement_id("0xAccountAddress"), "STMT-0xAccoun");
    assert_eq!(statement_id("abc"), "STMT-abc");
    let response = statement_response("0xAccountAddress", &records, "2026-02-01T00:00:00Z");
    assert_eq!(response.entry_count, 2);
    assert!(response.xml.contains("<MsgId>STMT-0xAccoun</MsgId>"));
    assert!(response.xml.contains("<EndToEndId>E2</EndToEndId>"));
}

#[test]
fn health_is_ok() {
    let h = health_response("1.2.3");
    assert_eq!(h.status, "ok");
    assert_eq!(h.version, "1.2.3");
}

#[test]
fn transfers_come_out_in_document_order() {
    let xml = r#"<Document><PmtInf>
        <CdtTrfTxInf><PmtId><EndToEndId>FIRST</EndToEndId></PmtId></CdtTrfTxInf>
        <CdtTrfTxInf><PmtId><EndToEndId>SECOND</EndToEndId></PmtId></CdtTrfTxInf>
        <CdtTrfTxInf><PmtId><EndToEndId>THIRD</EndToEndId></PmtId></CdtTrfTxInf>
        </PmtInf></Document>"#;
    let instruction = parse_pain001(xml).unwrap();
    let ids: Vec<&str> = instruction.transactions.iter().map(|t| t.end_to_end_id.as_str()).collect();
    assert_eq!(ids, vec!["FIRST", "SECOND", "THIRD"]);
}
