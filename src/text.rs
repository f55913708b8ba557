//! Character-level helpers used by the JSON writer and the color formatter.
//! String literals are quoted by serde_json; numbers are written here.
use vstd::prelude::*;

verus! {

/// Decimal digits, in order.
pub const DIGITS: &'static str = "0123456789";

/// Upper-case hexadecimal digits, in order.
pub const UPPER_DIGITS: &'static str = "0123456789ABCDEF";

/// The decimal digit of value `d` (0 to 9).
pub open spec fn digit(d: int) -> char {
    DIGITS@[d]
}

/// The upper-case hexadecimal digit of value `d` (0 to 15).
pub open spec fn upper_digit(d: int) -> char {
    UPPER_DIGITS@[d]
}

/// Decimal representation of `n`, without leading zeros.
pub open spec fn decimal(n: nat) -> Seq<char>
    decreases n,
{
    if n < 10 {
        seq![digit(n as int)]
    } else {
        decimal(n / 10).push(digit((n % 10) as int))
    }
}

/// The JSON string literal of `s`, quotes included, as serde_json writes it.
pub uninterp spec fn json_quoted(s: Seq<char>) -> Seq<char>;

/// Relies on serde_json::to_string on a `str`: the JSON string literal of the
/// text. Serialising a `str` into serde_json's in-memory buffer does not fail.
#[verifier::external_body]
fn quote(s: &str) -> (r: String)
    ensures
        r@ == json_quoted(s@),
{
    serde_json::to_string(s).unwrap_or_default()
}

/// Whether two string slices hold the same characters.
pub fn str_eq(a: &str, b: &str) -> (r: bool)
    ensures
        r == (a@ == b@),
{
    let n = a.unicode_len();
    if n != b.unicode_len() {
        return false;
    }
    let mut i: usize = 0;
    while i < n
        invariant
            n == a@.len(),
            n == b@.len(),
            i <= n,
            forall|j: int| 0 <= j < i ==> a@[j] == b@[j],
        decreases n - i,
    {
        if a.get_char(i) != b.get_char(i) {
            return false;
        }
        i = i + 1;
    }
    assert(a@ =~= b@);
    true
}

/// Appends the one-character string of `alphabet@[d]`.
fn push_digit(out: &mut String, alphabet: &str, d: usize)
    requires
        d < alphabet@.len() <= usize::MAX,
    ensures
        final(out)@ == old(out)@.push(alphabet@[d as int]),
{
    let s = alphabet.substring_char(d, d + 1);
    assert(s@ =~= seq![alphabet@[d as int]]);
    out.append(s);
}

/// Appends the decimal representation of `n`.
pub fn write_decimal(out: &mut String, n: u64)
    ensures
        final(out)@ == old(out)@ + decimal(n as nat),
    decreases n,
{
    proof {
        reveal_strlit("0123456789");
    }
    let ghost start = out@;
    if n >= 10 {
        write_decimal(out, n / 10);
    }
    push_digit(out, DIGITS, (n % 10) as usize);
    assert(out@ =~= start + decimal(n as nat));
}

/// Appends `s` as a JSON string literal, quotes included.
pub fn write_quoted(out: &mut String, s: &str)
    ensures
        final(out)@ == old(out)@ + json_quoted(s@),
{
    let q = quote(s);
    out.append(q.as_str());
}

} // verus!
