//! The chain's own data as the block explorer serves it, the requests that
//! fetch it, and the reading of a block-hash reply.

use crate::error::IngestError;
use crate::text::{append_decimal, decimal_digits};
use vstd::prelude::*;

verus! {

/// One output of a transaction; scripts of a non-standard kind carry no
/// address.
#[derive(Clone, Debug, PartialEq, Eq)]
pub struct RawOutput {
    pub address: Option<String>,
    pub value: u64,
}

/// One input of a transaction; a coinbase input refers to no previous
/// output.
#[derive(Clone, Debug, PartialEq, Eq)]
pub struct RawInput {
    pub previous_output: Option<RawOutput>,
}

/// A transaction as the chain holds it.
#[derive(Clone, Debug, PartialEq, Eq)]
pub struct RawTransaction {
    pub txid: String,
    pub inputs: Vec<RawInput>,
    pub outputs: Vec<RawOutput>,
}

/// White space in the sense of Unicode's `White_Space` property.
pub open spec fn is_blank(c: char) -> bool {
    let u = c as u32;
    ||| 0x09 <= u <= 0x0D
    ||| u == 0x20
    ||| u == 0x85
    ||| u == 0xA0
    ||| u == 0x1680
    ||| 0x2000 <= u <= 0x200A
    ||| u == 0x2028
    ||| u == 0x2029
    ||| u == 0x202F
    ||| u == 0x205F
    ||| u == 0x3000
}

/// A hexadecimal digit in either case.
pub open spec fn is_hex_digit(c: char) -> bool {
    let u = c as u32;
    ||| 0x30 <= u <= 0x39
    ||| 0x41 <= u <= 0x46
    ||| 0x61 <= u <= 0x66
}

/// Number of blank characters at the start of `s`.
pub open spec fn leading_blanks(s: Seq<char>) -> nat
    decreases s.len(),
{
    if s.len() > 0 && is_blank(s[0]) {
        1 + leading_blanks(s.drop_first())
    } else {
        0
    }
}

/// Number of blank characters at the end of `s`.
pub open spec fn trailing_blanks(s: Seq<char>) -> nat
    decreases s.len(),
{
    if s.len() > 0 && is_blank(s.last()) {
        1 + trailing_blanks(s.drop_last())
    } else {
        0
    }
}

/// `s` without the blanks at its start and at its end.
pub open spec fn trimmed(s: Seq<char>) -> Seq<char> {
    let rest = s.skip(leading_blanks(s) as int);
    rest.take(rest.len() - trailing_blanks(rest))
}

/// A block hash is a non-empty run of hexadecimal digits.
pub open spec fn is_hash_text(s: Seq<char>) -> bool {
    &&& s.len() > 0
    &&& forall|i: int| 0 <= i < s.len() ==> is_hex_digit(#[trigger] s[i])
}

/// Address of the request that resolves a height to a block hash.
pub open spec fn block_hash_url_text(base: Seq<char>, height: u64) -> Seq<char> {
    base + "/block-height/"@ + decimal_digits(height as nat)
}

/// Address of the request that lists the transactions of a block.
pub open spec fn block_transactions_url_text(base: Seq<char>, hash: Seq<char>) -> Seq<char> {
    base + "/block/"@ + hash + "/txs"@
}

/// Address of the request that lists the unspent outputs of an address.
pub open spec fn address_utxo_url_text(base: Seq<char>, address: Seq<char>) -> Seq<char> {
    base + "/address/"@ + address + "/utxo"@
}

/// Builds `{base}/block-height/{height}`.
pub fn block_hash_url(base: &str, height: u64) -> (url: String)
    ensures
        url@ == block_hash_url_text(base@, height),
{
    let mut url = base.to_owned();
    url.append("/block-height/");
    append_decimal(&mut url, height as u128);
    url
}

/// Builds `{base}/block/{hash}/txs`.
pub fn block_transactions_url(base: &str, hash: &str) -> (url: String)
    ensures
        url@ == block_transactions_url_text(base@, hash@),
{
    let mut url = base.to_owned();
    url.append("/block/");
    url.append(hash);
    url.append("/txs");
    url
}

/// Builds `{base}/address/{address}/utxo`.
pub fn address_utxo_url(base: &str, address: &str) -> (url: String)
    ensures
        url@ == address_utxo_url_text(base@, address@),
{
    let mut url = base.to_owned();
    url.append("/address/");
    url.append(address);
    url.append("/utxo");
    url
}

/// Tells whether `c` is white space.
pub fn is_blank_char(c: char) -> (blank: bool)
    ensures
        blank == is_blank(c),
{
    let u: u32 = c as u32;
    (0x09 <= u && u <= 0x0D) || u == 0x20 || u == 0x85 || u == 0xA0 || u == 0x1680 || (0x2000 <= u
        && u <= 0x200A) || u == 0x2028 || u == 0x2029 || u == 0x202F || u == 0x205F || u == 0x3000
}

/// Tells whether `c` is a hexadecimal digit.
pub fn is_hex_digit_char(c: char) -> (hex: bool)
    ensures
        hex == is_hex_digit(c),
{
    let u: u32 = c as u32;
    (0x30 <= u && u <= 0x39) || (0x41 <= u && u <= 0x46) || (0x61 <= u && u <= 0x66)
}

/// The characters of `s`, one by one.
fn chars_of(s: &str) -> (chars: Vec<char>)
    ensures
        chars@ == s@,
{
    let mut chars: Vec<char> = Vec::new();
    for c in it: s.chars()
        invariant
            it.seq() == s@,
            chars@ == it.seq().take(it.index()),
    {
        chars.push(c);
        assert(chars@ =~= it.seq().take(it.index() + 1));
    }
    assert(chars@ =~= s@);
    chars
}

/// A run of blanks at the start, followed by a non-blank or by nothing, is
/// all the leading blanks there are.
proof fn lemma_leading_blanks(s: Seq<char>, a: int)
    requires
        0 <= a <= s.len(),
        forall|i: int| 0 <= i < a ==> is_blank(#[trigger] s[i]),
        a < s.len() ==> !is_blank(s[a]),
    ensures
        leading_blanks(s) == a,
    decreases a,
{
    if a > 0 {
        let rest = s.drop_first();
        assert forall|i: int| 0 <= i < a - 1 implies is_blank(#[trigger] rest[i]) by {
            assert(rest[i] == s[i + 1]);
        }
        lemma_leading_blanks(rest, a - 1);
    }
}

/// A run of blanks at the end, preceded by a non-blank or by nothing, is
/// all the trailing blanks there are.
proof fn lemma_trailing_blanks(s: Seq<char>, b: int)
    requires
        0 <= b <= s.len(),
        forall|i: int| b <= i < s.len() ==> is_blank(#[trigger] s[i]),
        b > 0 ==> !is_blank(s[b - 1]),
    ensures
        trailing_blanks(s) == s.len() - b,
    decreases s.len() - b,
{
    if b < s.len() {
        let rest = s.drop_last();
        assert forall|i: int| b <= i < rest.len() implies is_blank(#[trigger] rest[i]) by {
            assert(rest[i] == s[i]);
        }
        lemma_trailing_blanks(rest, b);
    }
}

/// Reads the reply to a block-hash request: the text is trimmed and must
/// then be a well-formed hash.
pub fn parse_block_hash(body: &str) -> (parsed: Result<String, IngestError>)
    ensures
        is_hash_text(trimmed(body@)) ==> parsed is Ok && parsed->Ok_0@ == trimmed(body@),
        !is_hash_text(trimmed(body@)) ==> parsed == Err::<String, IngestError>(
            IngestError::UpstreamMalformed,
        ),
{
    let chars = chars_of(body);
    let n: usize = chars.len();
    let mut a: usize = 0;
    while a < n && is_blank_char(chars[a])
        invariant
            n == chars.len(),
            a <= n,
            forall|i: int| 0 <= i < a ==> is_blank(#[trigger] chars@[i]),
        decreases n - a,
    {
        a = a + 1;
    }
    let mut b: usize = n;
    while b > a && is_blank_char(chars[b - 1])
        invariant
            n == chars.len(),
            a <= b <= n,
            forall|i: int| b <= i < n ==> is_blank(#[trigger] chars@[i]),
        decreases b,
    {
        b = b - 1;
    }
    proof {
        let rest = body@.skip(a as int);
        lemma_leading_blanks(body@, a as int);
        assert forall|i: int| b - a <= i < rest.len() implies is_blank(#[trigger] rest[i]) by {
            assert(rest[i] == body@[i + a]);
        }
        lemma_trailing_blanks(rest, b - a);
        assert(trimmed(body@) =~= body@.subrange(a as int, b as int));
    }
    let mut i: usize = a;
    while i < b
        invariant
            a <= i <= b <= n,
            n == chars.len(),
            chars@ == body@,
            trimmed(body@) == body@.subrange(a as int, b as int),
            forall|k: int| a <= k < i ==> is_hex_digit(#[trigger] chars@[k]),
        decreases b - i,
    {
        if !is_hex_digit_char(chars[i]) {
            proof {
                let t = body@.subrange(a as int, b as int);
                assert(t[i - a] == chars@[i as int]);
            }
            return Err(IngestError::UpstreamMalformed);
        }
        i = i + 1;
    }
    if a == b {
        return Err(IngestError::UpstreamMalformed);
    }
    proof {
        let t = body@.subrange(a as int, b as int);
        assert forall|k: int| 0 <= k < t.len() implies is_hex_digit(#[trigger] t[k]) by {
            assert(t[k] == chars@[k + a]);
        }
    }
    Ok(body.substring_char(a, b).to_owned())
}

} // verus!
