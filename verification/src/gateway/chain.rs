//! Chain access of the gateway: the RPC client's address, block polling and payment logs.
use crate::primitives::{Address, B256};
use crate::text::{append_hex, hex_numeral, parse_hex_u64, spec_parse_hex_u64};
use vstd::prelude::*;
use vstd::slice::slice_subrange;
use vstd::string::*;
use vstd::utf8::{decode_utf8, valid_utf8};

verus! {

/// RPC client for querying the Magnus chain.
#[derive(Debug)]
pub struct ChainClient {
    http_url: String,
}

impl Clone for ChainClient {
    /// A client for the same endpoint.
    fn clone(&self) -> (r: ChainClient)
        ensures
            r.spec_http_url() == self.spec_http_url(),
    {
        ChainClient { http_url: self.http_url.clone() }
    }
}

impl ChainClient {
    /// The HTTP RPC endpoint.
    pub closed spec fn spec_http_url(&self) -> Seq<char> {
        self.http_url@
    }

    /// Create a new chain client.
    pub fn new(http_url: String) -> (r: ChainClient)
        ensures
            r.spec_http_url() == http_url@,
    {
        ChainClient { http_url }
    }

    /// Returns the HTTP RPC URL.
    pub fn http_url(&self) -> (r: &str)
        ensures
            r@ == self.spec_http_url(),
    {
        self.http_url.as_str()
    }
}

/// Two lowercase hexadecimal digits per byte, most significant nibble first.
pub open spec fn bytes_hex(bytes: Seq<u8>) -> Seq<char>
    decreases bytes.len(),
{
    if bytes.len() == 0 {
        Seq::empty()
    } else {
        bytes_hex(bytes.drop_last()) + byte_hex(bytes.last())
    }
}

/// The two lowercase hexadecimal digits of a byte.
pub open spec fn byte_hex(b: u8) -> Seq<char> {
    if b < 16 {
        "0"@ + hex_numeral(b as nat)
    } else {
        hex_numeral(b as nat)
    }
}

/// The `0x`-prefixed hexadecimal form of a 32-byte hash, as a JSON-RPC parameter.
pub open spec fn spec_hash_param(hash: B256) -> Seq<char> {
    "0x"@ + bytes_hex(hash.bytes@)
}

/// Formats a transaction hash as `0x` followed by its 64 lowercase hexadecimal digits.
pub fn hash_param(hash: &B256) -> (r: String)
    ensures
        r@ == spec_hash_param(*hash),
{
    let mut out = String::from_str("0x");
    let mut i: usize = 0;
    while i < 32
        invariant
            i <= 32,
            out@ == "0x"@ + bytes_hex(hash.bytes@.take(i as int)),
        decreases 32 - i,
    {
        let b = hash.bytes[i];
        if b < 16 {
            out.append("0");
        }
        append_hex(&mut out, b as u64);
        proof {
            assert(hash.bytes@.take(i + 1).drop_last() =~= hash.bytes@.take(i as int));
            assert(hash.bytes@.take(i + 1).last() == b);
        }
        i = i + 1;
    }
    assert(hash.bytes@.take(32) =~= hash.bytes@);
    out
}

/// The bytes left after removing every leading `0x` (as `trim_start_matches("0x")` does).
pub open spec fn trim_hex_prefix(bytes: Seq<u8>) -> Seq<u8>
    decreases bytes.len(),
{
    if bytes.len() >= 2 && bytes[0] == 48 && bytes[1] == 120 {
        trim_hex_prefix(bytes.subrange(2, bytes.len() as int))
    } else {
        bytes
    }
}

/// The block number an `eth_blockNumber` result holds: its hexadecimal value after the
/// `0x` prefixes, or zero when the result is missing or malformed.
pub open spec fn spec_block_number(result: Option<Seq<u8>>) -> u64 {
    match result {
        Some(text) => match spec_parse_hex_u64(trim_hex_prefix(text)) {
            Some(n) => n,
            None => 0,
        },
        None => 0,
    }
}

/// Reads the block number of an `eth_blockNumber` result.
pub fn block_number_of(result: Option<&str>) -> (r: u64)
    ensures
        r == spec_block_number(
            match result {
                Some(t) => Some(t.spec_bytes()),
                None => None,
            },
        ),
{
    match result {
        None => 0,
        Some(text) => {
            let b = text.as_bytes();
            let mut start: usize = 0;
            assert(b@.subrange(0, b@.len() as int) =~= b@);
            while b.len() - start >= 2 && b[start] == 48 && b[start + 1] == 120
                invariant
                    start <= b.len(),
                    b@ == text.spec_bytes(),
                    trim_hex_prefix(b@.subrange(start as int, b@.len() as int)) == trim_hex_prefix(
                        b@,
                    ),
                decreases b.len() - start,
            {
                let ghost rest = b@.subrange(start as int, b@.len() as int);
                assert(rest.subrange(2, rest.len() as int) =~= b@.subrange(
                    start + 2,
                    b@.len() as int,
                ));
                start = start + 2;
            }
            let digits = slice_subrange(b, start, b.len());
            match parse_hex_u64(digits) {
                Some(n) => n,
                None => 0,
            }
        },
    }
}

/// The block range to fetch logs for, or nothing when no new block was produced.
#[derive(Debug, Clone)]
pub enum PollPlan {
    /// The chain has not advanced past the last processed block.
    UpToDate,
    /// Fetch the logs of blocks `from_block ..= to_block` (hexadecimal quantities), then
    /// record `current_block` as processed.
    FetchLogs { from_block: String, to_block: String, current_block: u64 },
}

/// The `0x`-prefixed hexadecimal quantity of `n`.
pub open spec fn hex_quantity(n: nat) -> Seq<char> {
    "0x"@ + hex_numeral(n)
}

/// Decides what one poll does: nothing when the chain has not advanced past
/// `last_block`, else fetch the logs of the new blocks.
pub fn plan_poll(last_block: u64, current_block: u64) -> (r: PollPlan)
    ensures
        current_block <= last_block ==> r is UpToDate,
        current_block > last_block ==> (r matches PollPlan::FetchLogs {
            from_block,
            to_block,
            current_block: c,
        } && from_block@ == hex_quantity((last_block + 1) as nat) && to_block@ == hex_quantity(
            current_block as nat,
        ) && c == current_block),
{
    if current_block <= last_block {
        return PollPlan::UpToDate;
    }
    let mut from_block = String::from_str("0x");
    append_hex(&mut from_block, last_block + 1);
    let mut to_block = String::from_str("0x");
    append_hex(&mut to_block, current_block);
    PollPlan::FetchLogs { from_block, to_block, current_block }
}

/// On-chain payment event data extracted from `TransferWithPaymentData` logs.
#[derive(Debug, Clone)]
pub struct PaymentEvent {
    /// The on-chain transaction hash.
    pub tx_hash: B256,
    /// Block number where the event was emitted.
    pub block_number: u64,
    /// Token contract address.
    pub token: Address,
    /// Sender address.
    pub from: Address,
    /// Recipient address.
    pub to: Address,
    /// Transfer amount (raw, token-decimals).
    pub amount: String,
    /// ISO 20022 end-to-end ID embedded in the transfer.
    pub end_to_end_id: String,
    /// ISO 20022 purpose code.
    pub purpose_code: String,
    /// Free-text remittance information.
    pub remittance_info: String,
    /// IPFS hash of the full ISO 20022 message (if attached).
    pub message_hash: Option<String>,
}

/// The big-endian value of `bytes`.
pub open spec fn be_value(bytes: Seq<u8>) -> nat
    decreases bytes.len(),
{
    if bytes.len() == 0 {
        0
    } else {
        be_value(bytes.drop_last()) * 256 + (bytes.last() as nat)
    }
}

/// The decimal digit of `d < 10`.
pub open spec fn decimal_digit(d: nat) -> char {
    (d + 48) as char
}

/// The decimal numeral of `n`, without leading zeros (`"0"` for zero).
pub open spec fn decimal_numeral(n: nat) -> Seq<char>
    decreases n,
{
    if n < 10 {
        seq![decimal_digit(n)]
    } else {
        decimal_numeral(n / 10).push(decimal_digit(n % 10))
    }
}

/// The decimal form of a 32-byte big-endian word, by `alloy_primitives::U256::from_be_slice`
/// and its `Display` (`to_string`).
///
/// Claimed: the text is the decimal numeral of the word's value, without leading zeros.
#[verifier::external_body]
fn word_decimal(word: &[u8]) -> (r: String)
    requires
        word@.len() == 32,
    ensures
        r@ == decimal_numeral(be_value(word@)),
{
    alloy_primitives::U256::from_be_slice(word).to_string()
}

/// The text `bytes` encode in UTF-8, by `std::str::from_utf8`: `None` where they are not
/// valid UTF-8.
#[verifier::external_body]
fn utf8_text(bytes: &[u8]) -> (r: Option<String>)
    ensures
        r is Some <==> valid_utf8(bytes@),
        r matches Some(t) ==> t@ == decode_utf8(bytes@),
{
    match std::str::from_utf8(bytes) {
        Ok(t) => Some(t.to_string()),
        Err(_) => None,
    }
}

/// The ABI word (32 bytes) at byte offset `at` of `data`, if it lies inside.
pub open spec fn abi_word(data: Seq<u8>, at: int) -> Option<Seq<u8>> {
    if 0 <= at && at + 32 <= data.len() {
        Some(data.subrange(at, at + 32))
    } else {
        None
    }
}

/// The value of the last eight bytes of a word, big-endian.
pub open spec fn low_u64(w: Seq<u8>) -> u64 {
    ((w[24] as u64) << 56u64) | ((w[25] as u64) << 48u64) | ((w[26] as u64) << 40u64) | ((
    w[27] as u64) << 32u64) | ((w[28] as u64) << 24u64) | ((w[29] as u64) << 16u64) | ((w[30] as u64)
        << 8u64) | (w[31] as u64)
}

/// The value of an ABI offset or length word, where it fits in 64 bits (its first 24 bytes
/// are zero).
pub open spec fn small_word(w: Seq<u8>) -> Option<u64> {
    if forall|i: int| 0 <= i < 24 ==> w[i] == 0 {
        Some(low_u64(w))
    } else {
        None
    }
}

/// The bytes of the dynamic `string` whose head is ABI word number `slot` of `data`: the
/// head holds the offset of a length word, which the bytes follow. `None` where an offset
/// or length points outside `data`.
pub open spec fn abi_string_bytes(data: Seq<u8>, slot: int) -> Option<Seq<u8>> {
    match abi_word(data, 32 * slot) {
        Some(head) => match small_word(head) {
            Some(offset) => match abi_word(data, offset as int) {
                Some(len_word) => match small_word(len_word) {
                    Some(len) => if offset + 32 + len <= data.len() {
                        Some(data.subrange(offset + 32, offset + 32 + len))
                    } else {
                        None
                    },
                    None => None,
                },
                None => None,
            },
            None => None,
        },
        None => None,
    }
}

/// The text of the `string` at head slot `slot`: empty where it is absent or not UTF-8.
pub open spec fn abi_text(data: Seq<u8>, slot: int) -> Seq<char> {
    match abi_string_bytes(data, slot) {
        Some(b) => if valid_utf8(b) {
            decode_utf8(b)
        } else {
            Seq::empty()
        },
        None => Seq::empty(),
    }
}

/// The address an indexed topic carries in its last 20 bytes; zero where the log has no
/// topic number `i`.
pub open spec fn topic_address(topics: Seq<B256>, i: int) -> Seq<u8> {
    if 0 <= i < topics.len() {
        topics[i].bytes@.subrange(12, 32)
    } else {
        Seq::new(20, |k: int| 0u8)
    }
}

/// The decimal amount of the first data word; `"0"` where the data holds none.
pub open spec fn log_amount(data: Seq<u8>) -> Seq<char> {
    match abi_word(data, 0) {
        Some(w) => decimal_numeral(be_value(w)),
        None => "0"@,
    }
}

/// Some byte of the word is not zero.
pub open spec fn nonzero_word(w: Seq<u8>) -> bool {
    exists|i: int| 0 <= i < w.len() && w[i] != 0
}

/// The message hash of the fifth data word, `0x`-prefixed; none where the word is absent
/// or zero.
pub open spec fn log_message_hash(data: Seq<u8>) -> Option<Seq<char>> {
    match abi_word(data, 128) {
        Some(w) => if nonzero_word(w) {
            Some("0x"@ + bytes_hex(w))
        } else {
            None
        },
        None => None,
    }
}

/// Reads the ABI offset or length word at byte offset `at`.
fn read_small_word(data: &[u8], at: u64) -> (r: Option<u64>)
    ensures
        r == (match abi_word(data@, at as int) {
            Some(w) => small_word(w),
            None => None,
        }),
{
    let len = data.len() as u64;
    if at > len || len - at < 32 {
        return None;
    }
    let start = at as usize;
    assert(start as int == at as int);
    let ghost w = data@.subrange(start as int, start + 32);
    assert(abi_word(data@, at as int) == Some(w));
    let mut i: usize = 0;
    while i < 24
        invariant
            i <= 24,
            start + 32 <= data.len(),
            w == data@.subrange(start as int, start + 32),
            abi_word(data@, at as int) == Some(w),
            forall|j: int| 0 <= j < i ==> w[j] == 0,
        decreases 24 - i,
    {
        if data[start + i] != 0 {
            assert(w[i as int] != 0);
            assert(small_word(w) is None);
            return None;
        }
        i = i + 1;
    }
    let v = ((data[start + 24] as u64) << 56u64) | ((data[start + 25] as u64) << 48u64) | ((data[start
        + 26] as u64) << 40u64) | ((data[start + 27] as u64) << 32u64) | ((data[start + 28] as u64)
        << 24u64) | ((data[start + 29] as u64) << 16u64) | ((data[start + 30] as u64) << 8u64) | (data[start
        + 31] as u64);
    assert(v == low_u64(w));
    Some(v)
}

/// Reads the `string` at head slot `slot` of `data`.
fn read_abi_text(data: &[u8], slot: u64) -> (r: String)
    requires
        slot < 8,
    ensures
        r@ == abi_text(data@, slot as int),
{
    let offset = match read_small_word(data, 32 * slot) {
        Some(o) => o,
        None => {
            return String::new();
        },
    };
    let len = match read_small_word(data, offset) {
        Some(l) => l,
        None => {
            return String::new();
        },
    };
    let total = data.len() as u64;
    if total - offset - 32 < len {
        return String::new();
    }
    let start = (offset + 32) as usize;
    let end = start + len as usize;
    let bytes = slice_subrange(data, start, end);
    match utf8_text(bytes) {
        Some(t) => t,
        None => String::new(),
    }
}

/// The address in the last 20 bytes of topic `i`, or zero when the log has no such topic.
fn read_topic_address(topics: &[B256], i: usize) -> (r: Address)
    ensures
        r.bytes@ == topic_address(topics@, i as int),
{
    if i >= topics.len() {
        let r = Address::zero();
        assert(r.bytes@ =~= Seq::new(20, |k: int| 0u8));
        return r;
    }
    let t = &topics[i].bytes;
    let mut bytes = [0u8; 20];
    let mut k: usize = 0;
    while k < 20
        invariant
            k <= 20,
            t@.len() == 32,
            forall|j: int| 0 <= j < k ==> bytes@[j] == t@[12 + j],
        decreases 20 - k,
    {
        bytes.set(k, t[12 + k]);
        k = k + 1;
    }
    let r = Address::from_bytes(bytes);
    assert(r.bytes@ =~= t@.subrange(12, 32));
    r
}

/// The amount in the first data word, in decimal.
fn read_amount(data: &[u8]) -> (r: String)
    ensures
        r@ == log_amount(data@),
{
    if data.len() < 32 {
        return String::from_str("0");
    }
    word_decimal(slice_subrange(data, 0, 32))
}

/// The message hash in the fifth data word.
fn read_message_hash(data: &[u8]) -> (r: Option<String>)
    ensures
        match log_message_hash(data@) {
            Some(h) => r matches Some(s) && s@ == h,
            None => r is None,
        },
{
    if data.len() < 160 {
        return None;
    }
    let mut bytes = [0u8; 32];
    let mut k: usize = 0;
    while k < 32
        invariant
            k <= 32,
            data@.len() >= 160,
            bytes@.len() == 32,
            forall|j: int| 0 <= j < k ==> bytes@[j] == data@[128 + j],
        decreases 32 - k,
    {
        bytes.set(k, data[128 + k]);
        k = k + 1;
    }
    let ghost w = data@.subrange(128, 160);
    assert(bytes@ =~= w);
    assert(abi_word(data@, 128) == Some(w));
    let mut any = false;
    let mut k: usize = 0;
    while k < 32
        invariant
            k <= 32,
            bytes@.len() == 32,
            bytes@ == w,
            data@.len() >= 160,
            w == data@.subrange(128, 160),
            any <==> exists|j: int| 0 <= j < k && #[trigger] bytes@[j] != 0,
        decreases 32 - k,
    {
        let ghost prev = any;
        if bytes[k] != 0 {
            any = true;
        }
        proof {
            if prev {
                let j = choose|j: int| 0 <= j < k && #[trigger] bytes@[j] != 0;
                assert(0 <= j < k + 1 && bytes@[j] != 0);
            }
            if bytes@[k as int] != 0 {
                assert(0 <= k < k + 1 && bytes@[k as int] != 0);
            }
        }
        k = k + 1;
    }
    if !any {
        assert(!nonzero_word(w)) by {
            assert forall|i: int| 0 <= i < 32 implies w[i] == 0 by {
                assert(w[i] == bytes@[i]);
            }
        }
        return None;
    }
    assert(nonzero_word(w)) by {
        let j = choose|j: int| 0 <= j < 32 && #[trigger] bytes@[j] != 0;
        assert(w[j] == bytes@[j]);
    }
    assert(abi_word(data@, 128) == Some(w));
    Some(hash_param(&B256 { bytes }))
}

/// Parse a raw `TransferWithPaymentData` log into a `PaymentEvent`.
///
/// The indexed parameters come from the topics (`topics[1]` = from, `topics[2]` = to, each
/// an address in the topic's last 20 bytes), the others from the ABI-encoded data
/// `abi.encode(amount, endToEndId, purposeCode, remittanceInfo, messageHash)`. A field whose
/// encoding the log lacks keeps its default: a zero address, amount `0`, empty text, no
/// message hash.
pub fn parse_payment_log(
    tx_hash: B256,
    block_number: u64,
    token: Address,
    topics: &[B256],
    data: &[u8],
) -> (r: Option<PaymentEvent>)
    ensures
        r matches Some(e) && e.tx_hash == tx_hash && e.block_number == block_number && e.token
            == token && e.from.bytes@ == topic_address(topics@, 1) && e.to.bytes@ == topic_address(
            topics@,
            2,
        ) && e.amount@ == log_amount(data@) && e.end_to_end_id@ == abi_text(data@, 1)
            && e.purpose_code@ == abi_text(data@, 2) && e.remittance_info@ == abi_text(data@, 3)
            && match log_message_hash(data@) {
            Some(h) => e.message_hash matches Some(m) && m@ == h,
            None => e.message_hash is None,
        },
{
    Some(
        PaymentEvent {
            tx_hash,
            block_number,
            token,
            from: read_topic_address(topics, 1),
            to: read_topic_address(topics, 2),
            amount: read_amount(data),
            end_to_end_id: read_abi_text(data, 1),
            purpose_code: read_abi_text(data, 2),
            remittance_info: read_abi_text(data, 3),
            message_hash: read_message_hash(data),
        },
    )
}

} // verus!
