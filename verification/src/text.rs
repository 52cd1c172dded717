//! Text helpers: string comparison and hexadecimal numerals.
use vstd::prelude::*;
use vstd::string::*;
use vstd::utf8::*;

verus! {

/// Whether two strings hold the same characters (compared byte for byte).
pub fn same_text(a: &str, b: &str) -> (r: bool)
    ensures
        r == (a@ == b@),
{
    let x = a.as_bytes();
    let y = b.as_bytes();
    proof {
        encode_utf8_decode_utf8(a@);
        encode_utf8_decode_utf8(b@);
    }
    if x.len() != y.len() {
        return false;
    }
    let mut i: usize = 0;
    while i < x.len()
        invariant
            x@ == encode_utf8(a@),
            y@ == encode_utf8(b@),
            x.len() == y.len(),
            i <= x.len(),
            forall|j: int| 0 <= j < i ==> #[trigger] x@[j] == y@[j],
        decreases x.len() - i,
    {
        if x[i] != y[i] {
            return false;
        }
        i = i + 1;
    }
    assert(x@ =~= y@);
    true
}

/// The lowercase hexadecimal digit for `d`.
pub open spec fn hex_char(d: nat) -> char {
    if d < 10 {
        (48 + d) as char
    } else {
        (87 + d) as char
    }
}

/// The lowercase hexadecimal numeral of `n`, without leading zeros (`0` for zero).
pub open spec fn hex_numeral(n: nat) -> Seq<char>
    decreases n,
{
    if n < 16 {
        seq![hex_char(n)]
    } else {
        hex_numeral(n / 16).push(hex_char(n % 16))
    }
}

/// The one-character string of the lowercase hexadecimal digit `d`.
fn hex_digit_str(d: u8) -> (r: &'static str)
    requires
        d < 16,
    ensures
        r@ == seq![hex_char(d as nat)],
{
    let r = match d {
        0 => "0",
        1 => "1",
        2 => "2",
        3 => "3",
        4 => "4",
        5 => "5",
        6 => "6",
        7 => "7",
        8 => "8",
        9 => "9",
        10 => "a",
        11 => "b",
        12 => "c",
        13 => "d",
        14 => "e",
        _ => "f",
    };
    proof {
        reveal_strlit("0");
        reveal_strlit("1");
        reveal_strlit("2");
        reveal_strlit("3");
        reveal_strlit("4");
        reveal_strlit("5");
        reveal_strlit("6");
        reveal_strlit("7");
        reveal_strlit("8");
        reveal_strlit("9");
        reveal_strlit("a");
        reveal_strlit("b");
        reveal_strlit("c");
        reveal_strlit("d");
        reveal_strlit("e");
        reveal_strlit("f");
        assert(r@ =~= seq![hex_char(d as nat)]);
    }
    r
}

/// Appends the lowercase hexadecimal numeral of `n` (as `format!("{:x}", n)` writes it).
pub fn append_hex(out: &mut String, n: u64)
    ensures
        final(out)@ == old(out)@ + hex_numeral(n as nat),
    decreases n,
{
    if n < 16 {
        out.append(hex_digit_str(n as u8));
    } else {
        append_hex(out, n / 16);
        out.append(hex_digit_str((n % 16) as u8));
        assert(old(out)@ + hex_numeral(n as nat) =~= old(out)@ + hex_numeral((n / 16) as nat)
            + seq![hex_char((n % 16) as nat)]);
    }
}

/// The value of a hexadecimal digit byte (`0-9`, `a-f`, `A-F`).
pub open spec fn hex_digit_value(b: u8) -> Option<nat> {
    if 48 <= b <= 57 {
        Some((b - 48) as nat)
    } else if 97 <= b <= 102 {
        Some((b - 87) as nat)
    } else if 65 <= b <= 70 {
        Some((b - 55) as nat)
    } else {
        None
    }
}

/// Every byte is a hexadecimal digit.
pub open spec fn all_hex_digits(bytes: Seq<u8>) -> bool {
    forall|i: int| 0 <= i < bytes.len() ==> (#[trigger] hex_digit_value(bytes[i])) is Some
}

/// The value of a sequence of hexadecimal digits.
pub open spec fn hex_value(digits: Seq<u8>) -> nat
    decreases digits.len(),
{
    if digits.len() == 0 {
        0
    } else {
        hex_value(digits.drop_last()) * 16 + match hex_digit_value(digits.last()) {
            Some(v) => v,
            None => 0,
        }
    }
}

/// What `u64::from_str_radix(_, 16)` gives for `bytes`: an optional `+` sign, then one or
/// more hexadecimal digits whose value fits in 64 bits.
pub open spec fn spec_parse_hex_u64(bytes: Seq<u8>) -> Option<u64> {
    let digits = if bytes.len() > 0 && bytes[0] == 43 {
        bytes.drop_first()
    } else {
        bytes
    };
    if digits.len() > 0 && all_hex_digits(digits) && hex_value(digits) <= u64::MAX {
        Some(hex_value(digits) as u64)
    } else {
        None
    }
}

/// The value of one hexadecimal digit byte.
fn hex_digit(b: u8) -> (r: Option<u64>)
    ensures
        r is Some <==> hex_digit_value(b) is Some,
        r is Some ==> r->0 == hex_digit_value(b)->0 && r->0 < 16,
{
    if 48 <= b && b <= 57 {
        Some((b - 48) as u64)
    } else if 97 <= b && b <= 102 {
        Some((b - 87) as u64)
    } else if 65 <= b && b <= 70 {
        Some((b - 55) as u64)
    } else {
        None
    }
}

/// Parses a hexadecimal `u64` the way `u64::from_str_radix(_, 16)` does.
pub fn parse_hex_u64(bytes: &[u8]) -> (r: Option<u64>)
    ensures
        r == spec_parse_hex_u64(bytes@),
{
    let b = bytes;
    let start: usize = if b.len() > 0 && b[0] == 43 { 1 } else { 0 };
    let ghost digits = b@.subrange(start as int, b@.len() as int);
    assert(digits =~= (if b@.len() > 0 && b@[0] == 43 { b@.drop_first() } else { b@ }));
    if start >= b.len() {
        return None;
    }
    let mut acc: u64 = 0;
    let mut overflow = false;
    let mut i: usize = start;
    while i < b.len()
        invariant
            start <= i <= b.len(),
            b@ == bytes@,
            digits == b@.subrange(start as int, b@.len() as int),
            digits == (if b@.len() > 0 && b@[0] == 43 { b@.drop_first() } else { b@ }),
            all_hex_digits(b@.subrange(start as int, i as int)),
            !overflow ==> acc == hex_value(b@.subrange(start as int, i as int)),
            overflow ==> hex_value(b@.subrange(start as int, i as int)) > u64::MAX,
        decreases b.len() - i,
    {
        let prefix = Ghost(b@.subrange(start as int, i as int));
        let next = Ghost(b@.subrange(start as int, i + 1));
        assert(next@.drop_last() =~= prefix@);
        assert(next@.last() == b@[i as int]);
        let d = match hex_digit(b[i]) {
            Some(d) => d,
            None => {
                assert(!all_hex_digits(digits)) by {
                    assert(digits[i - start] == b@[i as int]);
                    assert(hex_digit_value(digits[i - start]) is None);
                }
                return None;
            },
        };
        if !overflow {
            if acc > 0x0fff_ffff_ffff_ffff {
                overflow = true;
            } else {
                let shifted: u64 = acc * 16;
                if shifted > u64::MAX - d {
                    overflow = true;
                } else {
                    acc = shifted + d;
                }
            }
        }
        i = i + 1;
        assert(all_hex_digits(b@.subrange(start as int, i as int))) by {
            assert forall|j: int| 0 <= j < next@.len() implies (#[trigger] hex_digit_value(
                next@[j],
            )) is Some by {
                if j < prefix@.len() {
                    assert(next@[j] == prefix@[j]);
                }
            }
        }
    }
    assert(b@.subrange(start as int, i as int) =~= digits);
    if overflow {
        None
    } else {
        Some(acc)
    }
}

} // verus!
