//! Certificate fingerprints.

use sha2::Digest;
use vstd::prelude::*;
use vstd::string::StringExecFns;

verus! {

/// The SHA-256 digest of `data`.
pub uninterp spec fn sha256(data: Seq<u8>) -> Seq<u8>;

/// Trusted: `sha2::Sha256::digest`. The digest depends on the data alone and
/// has 32 bytes.
#[verifier::external_body]
pub(crate) fn sha256_digest(data: &[u8]) -> (digest: Vec<u8>)
    ensures
        digest@ == sha256(data@),
        digest@.len() == 32,
{
    sha2::Sha256::digest(data).to_vec()
}

/// The hex digit of `n`, in lower case.
pub open spec fn hex_digit(n: u8) -> char
    recommends
        n < 16,
{
    if n < 10 {
        ('0' as u8 + n) as char
    } else {
        ('a' as u8 + n - 10) as char
    }
}

/// Two hex digits for each byte, with a colon between one byte and the next.
pub open spec fn colon_hex(bytes: Seq<u8>) -> Seq<char>
    decreases bytes.len(),
{
    if bytes.len() == 0 {
        Seq::empty()
    } else {
        let last = seq![hex_digit(bytes.last() / 16), hex_digit(bytes.last() % 16)];
        if bytes.len() == 1 {
            last
        } else {
            colon_hex(bytes.drop_last()) + seq![':'] + last
        }
    }
}

/// The fingerprint of a certificate in DER form.
pub open spec fn fingerprint_of(cert: Seq<u8>) -> Seq<char> {
    colon_hex(sha256(cert))
}

fn hex_text(n: u8) -> (digit: &'static str)
    requires
        n < 16,
    ensures
        digit@ == seq![hex_digit(n)],
{
    proof {
        reveal_strlit("0");
        reveal_strlit("1");
        reveal_strlit("2");
        reveal_strlit("3");
        reveal_strlit("4");
        reveal_strlit("5");
        reveal_strlit("6");
        reveal_strlit("7");
        reveal_strlit("8");
        reveal_strlit("9");
        reveal_strlit("a");
        reveal_strlit("b");
        reveal_strlit("c");
        reveal_strlit("d");
        reveal_strlit("e");
        reveal_strlit("f");
    }
    let digit: &'static str = match n {
        0 => "0",
        1 => "1",
        2 => "2",
        3 => "3",
        4 => "4",
        5 => "5",
        6 => "6",
        7 => "7",
        8 => "8",
        9 => "9",
        10 => "a",
        11 => "b",
        12 => "c",
        13 => "d",
        14 => "e",
        _ => "f",
    };
    assert(digit@ =~= seq![hex_digit(n)]);
    digit
}

/// Writes bytes as colon-separated lowercase hex.
pub fn format_colon_hex(bytes: &[u8]) -> (text: String)
    ensures
        text@ == colon_hex(bytes@),
{
    proof {
        reveal_strlit(":");
    }
    let mut text: String = String::new();
    let mut i: usize = 0;
    while i < bytes.len()
        invariant
            i <= bytes@.len(),
            text@ == colon_hex(bytes@.take(i as int)),
            ":"@ =~= seq![':'],
        decreases bytes@.len() - i,
    {
        let byte: u8 = bytes[i];
        if i > 0 {
            text.append(":");
        }
        text.append(hex_text(byte / 16));
        text.append(hex_text(byte % 16));
        proof {
            let done = bytes@.take(i + 1);
            assert(done.drop_last() =~= bytes@.take(i as int));
            assert(done.last() == byte);
            assert(text@ =~= colon_hex(done));
        }
        i = i + 1;
    }
    assert(bytes@.take(i as int) =~= bytes@);
    text
}

/// The SHA-256 fingerprint of a certificate in DER form, as colon-separated
/// lowercase hex.
pub fn generate_fingerprint(cert: &[u8]) -> (fingerprint: String)
    ensures
        fingerprint@ == fingerprint_of(cert@),
{
    let digest: Vec<u8> = sha256_digest(cert);
    format_colon_hex(digest.as_slice())
}

proof fn lemma_colon_hex_length(bytes: Seq<u8>)
    ensures
        bytes.len() > 0 ==> colon_hex(bytes).len() == 3 * bytes.len() - 1,
    decreases bytes.len(),
{
    if bytes.len() > 1 {
        lemma_colon_hex_length(bytes.drop_last());
    }
}

/// Nothing is lost in writing a digest down: different bytes have different
/// texts.
pub proof fn law_colon_hex_is_injective(a: Seq<u8>, b: Seq<u8>)
    requires
        colon_hex(a) == colon_hex(b),
    ensures
        a == b,
    decreases a.len(),
{
    lemma_colon_hex_length(a);
    lemma_colon_hex_length(b);
    if a.len() > 0 {
        let text = colon_hex(a);
        let n = text.len() as int;
        assert(text[n - 2] == hex_digit(a.last() / 16));
        assert(text[n - 2] == hex_digit(b.last() / 16));
        assert(text[n - 1] == hex_digit(a.last() % 16));
        assert(text[n - 1] == hex_digit(b.last() % 16));
        assert(a.last() == b.last());
        if a.len() > 1 {
            assert(colon_hex(a.drop_last()) =~= text.take(n - 3));
            assert(colon_hex(b.drop_last()) =~= text.take(n - 3));
            law_colon_hex_is_injective(a.drop_last(), b.drop_last());
        } else {
            assert(a.drop_last() =~= b.drop_last());
        }
        assert(a =~= a.drop_last().push(a.last()));
        assert(b =~= b.drop_last().push(b.last()));
    } else {
        assert(a =~= b);
    }
}

/// The text of some bytes has two lower-case hex digits for each of them, the
/// higher half first, in order, and a colon between one and the next.
pub proof fn law_colon_hex_shows_every_byte(bytes: Seq<u8>, i: int)
    requires
        0 <= i < bytes.len(),
    ensures
        colon_hex(bytes).len() == 3 * bytes.len() - 1,
        colon_hex(bytes)[3 * i] == "0123456789abcdef"@[(bytes[i] / 16) as int],
        colon_hex(bytes)[3 * i + 1] == "0123456789abcdef"@[(bytes[i] % 16) as int],
        i + 1 < bytes.len() ==> colon_hex(bytes)[3 * i + 2] == ':',
    decreases bytes.len(),
{
    reveal_strlit("0123456789abcdef");
    lemma_colon_hex_length(bytes);
    if bytes.len() > 1 {
        lemma_colon_hex_length(bytes.drop_last());
        if i < bytes.len() - 1 {
            law_colon_hex_shows_every_byte(bytes.drop_last(), i);
        }
    }
}

/// Certificates have the same fingerprint exactly where they have the same
/// SHA-256 digest.
pub proof fn law_fingerprints_tell_digests_apart(a: Seq<u8>, b: Seq<u8>)
    ensures
        fingerprint_of(a) == fingerprint_of(b) <==> sha256(a) == sha256(b),
        fingerprint_of(a) == colon_hex(sha256(a)),
{
    if fingerprint_of(a) == fingerprint_of(b) {
        law_colon_hex_is_injective(sha256(a), sha256(b));
    }
}

} // verus!
