//! Percent-encoding of text placed in console addresses.
use vstd::prelude::*;

verus! {

/// The characters percent-encoding leaves as they are: ASCII letters and digits
/// and `-`, `.`, `_`, `~`.
pub open spec fn unreserved(c: char) -> bool {
    ||| ('0' <= c && c <= '9')
    ||| ('A' <= c && c <= 'Z')
    ||| ('a' <= c && c <= 'z')
    ||| c == '-' || c == '.' || c == '_' || c == '~'
}

/// The upper-case hexadecimal digit of `d < 16`.
pub open spec fn hex_digit(d: int) -> char {
    if d < 10 { (('0' as int) + d) as char } else { (('A' as int) + d - 10) as char }
}

/// The UTF-8 encoding of `c`.
pub open spec fn utf8_bytes(c: char) -> Seq<int> {
    let v = c as int;
    if v < 0x80 {
        seq![v]
    } else if v < 0x800 {
        seq![0xC0 + v / 64, 0x80 + v % 64]
    } else if v < 0x10000 {
        seq![0xE0 + v / 4096, 0x80 + (v / 64) % 64, 0x80 + v % 64]
    } else {
        seq![0xF0 + v / 262144, 0x80 + (v / 4096) % 64, 0x80 + (v / 64) % 64, 0x80 + v % 64]
    }
}

/// `%` and the two upper-case hexadecimal digits of each byte.
pub open spec fn percent_bytes(b: Seq<int>) -> Seq<char>
    decreases b.len(),
{
    if b.len() == 0 {
        Seq::empty()
    } else {
        percent_bytes(b.drop_last()) + seq!['%', hex_digit(b.last() / 16), hex_digit(b.last() % 16)]
    }
}

/// `s` with every character other than the unreserved ones replaced by the
/// percent-encoding of its UTF-8 bytes.
pub open spec fn url_encoded(s: Seq<char>) -> Seq<char>
    decreases s.len(),
{
    if s.len() == 0 {
        Seq::empty()
    } else {
        url_encoded(s.drop_last()) + if unreserved(s.last()) {
            seq![s.last()]
        } else {
            percent_bytes(utf8_bytes(s.last()))
        }
    }
}

/// Text made only of unreserved characters is left as it is.
pub proof fn lemma_encoded_unreserved(s: Seq<char>)
    requires
        forall|i: int| 0 <= i < s.len() ==> unreserved(#[trigger] s[i]),
    ensures
        url_encoded(s) == s,
    decreases s.len(),
{
    if s.len() > 0 {
        lemma_encoded_unreserved(s.drop_last());
        assert(unreserved(s[s.len() - 1]));
        assert(s.drop_last().push(s.last()) =~= s);
    }
}

/// Encoding text after other text encodes each part on its own.
pub proof fn lemma_encoded_concat(a: Seq<char>, b: Seq<char>)
    ensures
        url_encoded(a + b) == url_encoded(a) + url_encoded(b),
    decreases b.len(),
{
    if b.len() == 0 {
        assert(a + b =~= a);
        assert(url_encoded(a) + url_encoded(b) =~= url_encoded(a));
    } else {
        lemma_encoded_concat(a, b.drop_last());
        assert((a + b).drop_last() =~= a + b.drop_last());
        assert((a + b).last() == b.last());
        let tail = if unreserved(b.last()) { seq![b.last()] } else { percent_bytes(utf8_bytes(b.last())) };
        assert(url_encoded(a) + url_encoded(b.drop_last()) + tail =~= url_encoded(a) + (url_encoded(b.drop_last()) + tail));
    }
}

/// Calls `urlencoding::encode`, which percent-encodes, with upper-case
/// hexadecimal digits, every UTF-8 byte of `s` except those of ASCII letters,
/// digits and `-`, `.`, `_`, `~`.
#[verifier::external_body]
pub(crate) fn encode(s: &str) -> (r: String)
    ensures
        r@ == url_encoded(s@),
{
    urlencoding::encode(s).into_owned()
}

} // verus!
