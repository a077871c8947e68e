//! Plaintext checksums: the SHA-256 digest written as lowercase hex.
use sha2::Digest;
use vstd::prelude::*;

verus! {

/// The SHA-256 digest of `bytes`, as `sha2` computes it.
pub uninterp spec fn sha256_of(bytes: Seq<u8>) -> Seq<u8>;

/// Relies on `sha2::Sha256::digest`: a 32-byte digest of the input.
#[verifier::external_body]
fn sha256(bytes: &[u8]) -> (r: Vec<u8>)
    ensures
        r@ == sha256_of(bytes@),
        r@.len() == 32,
{
    sha2::Sha256::digest(bytes).to_vec()
}

/// The lowercase hex digit for `n < 16`.
pub open spec fn hex_digit(n: u8) -> char {
    if n < 10 {
        (('0' as u8) + n) as char
    } else {
        (('a' as u8) + (n - 10)) as char
    }
}

/// Two lowercase hex digits per byte, most significant first.
pub open spec fn hex_spec(bytes: Seq<u8>) -> Seq<char>
    decreases bytes.len(),
{
    if bytes.len() == 0 {
        Seq::empty()
    } else {
        let last = bytes.last();
        hex_spec(bytes.drop_last()) + seq![hex_digit(last / 16), hex_digit(last % 16)]
    }
}

/// The checksum of a plaintext.
pub open spec fn checksum_spec(bytes: Seq<u8>) -> Seq<char> {
    hex_spec(sha256_of(bytes))
}

fn hex_digit_str(n: u8) -> (r: &'static str)
    requires
        n < 16,
    ensures
        r@ == seq![hex_digit(n)],
{
    proof {
        reveal_strlit("0"); reveal_strlit("1"); reveal_strlit("2"); reveal_strlit("3");
        reveal_strlit("4"); reveal_strlit("5"); reveal_strlit("6"); reveal_strlit("7");
        reveal_strlit("8"); reveal_strlit("9"); reveal_strlit("a"); reveal_strlit("b");
        reveal_strlit("c"); reveal_strlit("d"); reveal_strlit("e"); reveal_strlit("f");
    }
    match n {
        0 => "0",
        1 => "1",
        2 => "2",
        3 => "3",
        4 => "4",
        5 => "5",
        6 => "6",
        7 => "7",
        8 => "8",
        9 => "9",
        10 => "a",
        11 => "b",
        12 => "c",
        13 => "d",
        14 => "e",
        _ => "f",
    }
}

/// Writes `bytes` as lowercase hex.
pub fn to_hex(bytes: &[u8]) -> (r: String)
    ensures
        r@ == hex_spec(bytes@),
{
    let mut out = String::new();
    let mut i: usize = 0;
    while i < bytes.len()
        invariant
            i <= bytes@.len(),
            out@ == hex_spec(bytes@.subrange(0, i as int)),
        decreases bytes@.len() - i,
    {
        let b = bytes[i];
        out.append(hex_digit_str(b / 16));
        out.append(hex_digit_str(b % 16));
        proof {
            let next = bytes@.subrange(0, i + 1);
            assert(next.drop_last() =~= bytes@.subrange(0, i as int));
            assert(next.last() == b);
        }
        i = i + 1;
    }
    assert(bytes@.subrange(0, bytes@.len() as int) =~= bytes@);
    out
}

/// The checksum of `bytes`: its SHA-256 digest as 64 lowercase hex digits.
pub fn checksum(bytes: &[u8]) -> (r: String)
    ensures
        r@ == checksum_spec(bytes@),
{
    let digest = sha256(bytes);
    to_hex(digest.as_slice())
}

proof fn lemma_hex_digit_injective(a: u8, b: u8)
    requires
        a < 16,
        b < 16,
        hex_digit(a) == hex_digit(b),
    ensures
        a == b,
{
}

proof fn lemma_hex_len(bytes: Seq<u8>)
    ensures
        hex_spec(bytes).len() == 2 * bytes.len(),
    decreases bytes.len(),
{
    if bytes.len() > 0 {
        lemma_hex_len(bytes.drop_last());
    }
}

/// Hex writing loses nothing: different byte sequences give different text.
pub proof fn lemma_hex_injective(a: Seq<u8>, b: Seq<u8>)
    requires
        hex_spec(a) == hex_spec(b),
    ensures
        a == b,
    decreases a.len(),
{
    lemma_hex_len(a);
    lemma_hex_len(b);
    if a.len() > 0 {
        let (ha, hb) = (hex_spec(a), hex_spec(b));
        let n = ha.len();
        lemma_hex_len(a.drop_last());
        lemma_hex_len(b.drop_last());
        assert(ha[n - 2] == hex_digit(a.last() / 16));
        assert(hb[n - 2] == hex_digit(b.last() / 16));
        assert(ha[n - 1] == hex_digit(a.last() % 16));
        assert(hb[n - 1] == hex_digit(b.last() % 16));
        lemma_hex_digit_injective(a.last() / 16, b.last() / 16);
        lemma_hex_digit_injective(a.last() % 16, b.last() % 16);
        assert(hex_spec(a.drop_last()) =~= ha.subrange(0, n - 2));
        assert(hex_spec(b.drop_last()) =~= hb.subrange(0, n - 2));
        lemma_hex_injective(a.drop_last(), b.drop_last());
        assert(a.last() == b.last()) by (nonlinear_arith)
            requires a.last() / 16 == b.last() / 16, a.last() % 16 == b.last() % 16;
        assert(a =~= a.drop_last().push(a.last()));
        assert(b =~= b.drop_last().push(b.last()));
    }
}

/// Checksums are a function of the plaintext alone, and two plaintexts have
/// the same checksum exactly when their SHA-256 digests agree.
pub proof fn lemma_checksum_stable(a: Seq<u8>, b: Seq<u8>)
    ensures
        a == b ==> checksum_spec(a) == checksum_spec(b),
        checksum_spec(a) == checksum_spec(b) <==> sha256_of(a) == sha256_of(b),
{
    if checksum_spec(a) == checksum_spec(b) {
        lemma_hex_injective(sha256_of(a), sha256_of(b));
    }
}

} // verus!
