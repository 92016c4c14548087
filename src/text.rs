use vstd::prelude::*;

verus! {

/// The sixteen hexadecimal digits, lower case; the first ten are the
/// decimal digits.
pub open spec fn digit_chars() -> Seq<char> {
    seq!['0', '1', '2', '3', '4', '5', '6', '7', '8', '9', 'a', 'b', 'c', 'd', 'e', 'f']
}

/// Two lower-case hexadecimal digits for each byte, high half first.
pub open spec fn hex_of(b: Seq<u8>) -> Seq<char> {
    Seq::new(
        2 * b.len(),
        |i: int|
            digit_chars()[if i % 2 == 0 {
                b[i / 2] as int / 16
            } else {
                b[i / 2] as int % 16
            }],
    )
}

/// The decimal digits of `n`, without leading zeros.
pub open spec fn decimal_of(n: nat) -> Seq<char>
    decreases n,
{
    if n < 10 {
        seq![digit_chars()[n as int]]
    } else {
        decimal_of(n / 10).push(digit_chars()[(n % 10) as int])
    }
}

/// `s`, with a `0` before it when it is shorter than two characters.
pub open spec fn pad_two(s: Seq<char>) -> Seq<char> {
    if s.len() < 2 {
        seq!['0'] + s
    } else {
        s
    }
}

/// The first `k` characters of `s`, or all of `s` when it is shorter.
pub open spec fn prefix(s: Seq<char>, k: int) -> Seq<char> {
    if s.len() <= k {
        s
    } else {
        s.take(k)
    }
}

/// Relies on `hex::encode`: two lower-case hexadecimal digits for each byte,
/// high half first.
#[verifier::external_body]
fn hex_encode(b: &[u8]) -> (r: String)
    ensures
        r@ == hex_of(b@),
{
    hex::encode(b)
}

/// The text of digit `d`.
fn digit_text(d: u64) -> (r: &'static str)
    requires
        d < 16,
    ensures
        r@ == seq![digit_chars()[d as int]],
{
    let digits = "0123456789abcdef";
    proof {
        reveal_strlit("0123456789abcdef");
    }
    assert(digits@ =~= digit_chars());
    let r = digits.substring_ascii(d as usize, d as usize + 1);
    assert(r@ =~= seq![digit_chars()[d as int]]);
    r
}

/// The decimal text of `n`.
pub fn decimal(n: u64) -> (r: String)
    ensures
        r@ == decimal_of(n as nat),
    decreases n,
{
    if n < 10 {
        digit_text(n).to_owned()
    } else {
        let mut r = decimal(n / 10);
        r.append(digit_text(n % 10));
        assert(r@ =~= decimal_of(n as nat));
        r
    }
}

/// At most the first `k` lower-case hexadecimal digits of `b`.
pub fn hex_prefix(b: &[u8], k: usize) -> (r: String)
    ensures
        r@ == prefix(hex_of(b@), k as int),
{
    let h = hex_encode(b);
    assert(h.is_ascii()) by {
        assert forall|i: int| 0 <= i < h@.len() implies '\0' <= #[trigger] h@[i] <= '\u{7f}' by {
            let d = if i % 2 == 0 {
                b@[i / 2] as int / 16
            } else {
                b@[i / 2] as int % 16
            };
            assert(0 <= d < 16);
            assert(h@[i] == digit_chars()[d]);
        }
    }
    let len = h.as_str().unicode_len();
    let end = if len < k {
        len
    } else {
        k
    };
    let r = h.as_str().substring_ascii(0, end).to_owned();
    assert(r@ =~= prefix(hex_of(b@), k as int));
    r
}

} // verus!
