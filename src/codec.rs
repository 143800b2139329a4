use vstd::prelude::*;
use vstd::string::StringSliceAdditionalSpecFns;
use vstd::utf8::{
    char_is_scalar, decode_utf8, encode_scalar, encode_utf8, encode_utf8_decode_utf8, encode_utf8_valid_utf8,
    has_width_1_encoding, has_width_2_encoding, has_width_3_encoding, is_scalar, valid_utf8,
};

verus! {

/// `k` is where the text stored in `b` ends: no zero byte comes before it,
/// and it is the end of `b` or the position of a zero byte.
pub open spec fn ends_text_at(b: Seq<u8>, k: int) -> bool {
    &&& 0 <= k <= b.len()
    &&& forall|j: int| 0 <= j < k ==> b[j] != 0
    &&& (k == b.len() || b[k] == 0)
}

/// The length of the text stored in a zero-padded buffer: the bytes before the first zero.
pub open spec fn text_len(b: Seq<u8>) -> int {
    choose|k: int| ends_text_at(b, k)
}

/// The text stored in a zero-padded buffer.
pub open spec fn text_of(b: Seq<u8>) -> Seq<u8> {
    b.take(text_len(b))
}

/// The buffer of `n` bytes that holds `b` followed by zeros.
pub open spec fn padded(b: Seq<u8>, n: nat) -> Seq<u8> {
    b + Seq::new((n - b.len()) as nat, |i: int| 0u8)
}

/// The text that a decode of buffer `b` yields: its bytes up to the first
/// zero read as UTF-8, or the empty string where they are not valid UTF-8.
pub open spec fn decoded_text(b: Seq<u8>) -> Seq<char> {
    if valid_utf8(text_of(b)) {
        decode_utf8(text_of(b))
    } else {
        Seq::empty()
    }
}

/// Every buffer has a place where its text ends.
pub proof fn lemma_text_end_exists(b: Seq<u8>)
    ensures
        ends_text_at(b, text_len(b)),
    decreases b.len(),
{
    if b.len() == 0 || b[0] == 0 {
        assert(ends_text_at(b, 0));
    } else {
        let t = b.drop_first();
        lemma_text_end_exists(t);
        let k = text_len(t);
        assert forall|j: int| 0 <= j < k + 1 implies b[j] != 0 by {
            if j > 0 {
                assert(b[j] == t[j - 1]);
            }
        }
        assert(ends_text_at(b, k + 1));
    }
}

/// Where the text of a buffer ends is determined by the buffer.
pub proof fn lemma_text_end_unique(b: Seq<u8>, k: int)
    requires
        ends_text_at(b, k),
    ensures
        text_len(b) == k,
        text_of(b) == b.take(k),
{
    let c = text_len(b);
    assert(ends_text_at(b, c));
    if c < k {
        assert(b[c] != 0);
    } else if k < c {
        assert(b[k] != 0);
    }
}

/// Stores the bytes of `s` in a zero-padded buffer of `N` bytes, or gives
/// `None` where they do not fit.
pub fn encode_fixed<const N: usize>(s: &str) -> (r: Option<[u8; N]>)
    ensures
        r is Some <==> s.spec_bytes().len() <= N,
        r matches Some(buf) ==> buf@ == padded(s.spec_bytes(), N as nat),
{
    let bytes = s.as_bytes();
    if bytes.len() > N {
        return None;
    }
    let mut buf: [u8; N] = [0u8; N];
    let mut i: usize = 0;
    while i < bytes.len()
        invariant
            bytes@ == s.spec_bytes(),
            bytes@.len() <= N,
            0 <= i <= bytes@.len(),
            forall|j: int| 0 <= j < i ==> buf@[j] == bytes@[j],
            forall|j: int| i <= j < N ==> buf@[j] == 0u8,
        decreases bytes@.len() - i,
    {
        buf[i] = bytes[i];
        i = i + 1;
    }
    assert(buf@ =~= padded(s.spec_bytes(), N as nat));
    Some(buf)
}

/// The bytes of a zero-padded buffer before the first zero byte.
pub fn text_bytes(buf: &[u8]) -> (r: Vec<u8>)
    ensures
        r@ == text_of(buf@),
{
    let mut r: Vec<u8> = Vec::new();
    let mut i: usize = 0;
    while i < buf.len() && buf[i] != 0
        invariant
            0 <= i <= buf@.len(),
            forall|j: int| 0 <= j < i ==> buf@[j] != 0,
            r@ == buf@.take(i as int),
        decreases buf@.len() - i,
    {
        r.push(buf[i]);
        i = i + 1;
        assert(r@ =~= buf@.take(i as int));
    }
    proof {
        lemma_text_end_unique(buf@, i as int);
    }
    r
}

/// Relies on std::str::from_utf8: it accepts exactly the byte strings that
/// are valid UTF-8, and then yields the text that those bytes encode.
#[verifier::external_body]
fn utf8_to_string(b: &[u8]) -> (r: Option<String>)
    ensures
        r is Some <==> valid_utf8(b@),
        r matches Some(s) ==> s@ == decode_utf8(b@),
{
    match std::str::from_utf8(b) {
        Ok(s) => Some(s.to_string()),
        Err(_) => None,
    }
}

/// Reads the text stored in a zero-padded buffer: the bytes up to the first
/// zero, as UTF-8. Bytes that are not valid UTF-8 read as the empty string.
pub fn decode_fixed(buf: &[u8]) -> (r: String)
    ensures
        r@ == decoded_text(buf@),
{
    let bytes = text_bytes(buf);
    match utf8_to_string(bytes.as_slice()) {
        Some(s) => s,
        None => String::new(),
    }
}

} // verus!

verus! {

/// Padding a text with zeros leaves the stored text as it was.
pub proof fn lemma_text_of_padded(b: Seq<u8>, n: nat)
    requires
        b.len() <= n,
    ensures
        text_of(padded(b, n)) == text_of(b),
{
    let p = padded(b, n);
    let k = text_len(b);
    lemma_text_end_exists(b);
    assert(ends_text_at(p, k));
    lemma_text_end_unique(p, k);
    assert(p.take(k) =~= b.take(k));
}

/// Whether two buffers hold the same text, comparing the bytes before the first zero of each.
pub fn same_text(a: &[u8], b: &[u8]) -> (r: bool)
    ensures
        r == (text_of(a@) == text_of(b@)),
{
    let ta = text_bytes(a);
    let tb = text_bytes(b);
    if ta.len() != tb.len() {
        return false;
    }
    let mut i: usize = 0;
    while i < ta.len()
        invariant
            ta@ == text_of(a@),
            tb@ == text_of(b@),
            ta@.len() == tb@.len(),
            0 <= i <= ta@.len(),
            forall|j: int| 0 <= j < i ==> ta@[j] == tb@[j],
        decreases ta@.len() - i,
    {
        if ta[i] != tb[i] {
            return false;
        }
        i = i + 1;
    }
    assert(ta@ =~= tb@);
    true
}

/// No byte of the UTF-8 encoding of a scalar other than zero is zero.
proof fn lemma_scalar_bytes_nonzero(c: u32)
    requires
        is_scalar(c),
        c != 0,
    ensures
        forall|i: int| 0 <= i < encode_scalar(c).len() ==> encode_scalar(c)[i] != 0,
{
    if has_width_1_encoding(c) {
        assert((c & 0x7F) as u8 != 0) by (bit_vector)
            requires
                1 <= c <= 0x7F,
        ;
    } else {
        assert(forall|x: u8| #[trigger] (0x80u8 | x) != 0) by (bit_vector);
        assert(forall|x: u8| #[trigger] (0xC0u8 | x) != 0) by (bit_vector);
        assert(forall|x: u8| #[trigger] (0xE0u8 | x) != 0) by (bit_vector);
        assert(forall|x: u8| #[trigger] (0xF0u8 | x) != 0) by (bit_vector);
    }
}

/// A text without the character NUL encodes to bytes without zero.
proof fn lemma_encoding_has_no_zero(s: Seq<char>)
    requires
        forall|i: int| 0 <= i < s.len() ==> s[i] as u32 != 0,
    ensures
        forall|j: int| 0 <= j < encode_utf8(s).len() ==> encode_utf8(s)[j] != 0,
    decreases s.len(),
{
    if s.len() > 0 {
        let head = encode_scalar(s[0] as u32);
        let rest = s.drop_first();
        char_is_scalar(s[0]);
        lemma_scalar_bytes_nonzero(s[0] as u32);
        lemma_encoding_has_no_zero(rest);
        let b = encode_utf8(s);
        assert(b == head + encode_utf8(rest));
        assert forall|j: int| 0 <= j < b.len() implies b[j] != 0 by {
            if j >= head.len() {
                assert(b[j] == encode_utf8(rest)[j - head.len()]);
            }
        }
    }
}

/// A text without the character NUL that fits in a buffer reads back
/// unchanged after it is stored there.
pub proof fn law_stored_text_reads_back(s: Seq<char>, n: nat)
    requires
        encode_utf8(s).len() <= n,
        forall|i: int| 0 <= i < s.len() ==> s[i] as u32 != 0,
    ensures
        decoded_text(padded(encode_utf8(s), n)) == s,
{
    let b = encode_utf8(s);
    lemma_encoding_has_no_zero(s);
    lemma_text_of_padded(b, n);
    lemma_text_end_unique(b, b.len() as int);
    assert(b.take(b.len() as int) =~= b);
    encode_utf8_valid_utf8(s);
    encode_utf8_decode_utf8(s);
}

} // verus!
