//! The signal token: a session description, dictionary-coded with smaz,
//! gzip-compressed at the best level and written as ASCII85 text.
use std::io::Read;
use std::io::Write;
use vstd::prelude::*;
use vstd::utf8::*;

verus! {

broadcast use vstd::utf8::group_utf8_lib;

/// Why a token could not be decoded.
#[derive(Debug, Clone, Copy, PartialEq, Eq, Structural)]
pub enum DecodeError {
    /// The text is not a framed ASCII85 token (`<~ ... ~>`, digits `!` to `u`,
    /// each group within 32 bits).
    NotAscii85,
    /// The decoded bytes are not a gzip stream.
    Inflate,
    /// The inflated bytes are not a well-formed smaz stream.
    Dictionary,
    /// The expanded bytes are not UTF-8.
    NotUtf8,
}

/// What `smaz::compress` returns for the given bytes.
pub uninterp spec fn smaz_of(b: Seq<u8>) -> Seq<u8>;

/// What `smaz::decompress` returns for the given bytes (`None` for an error).
pub uninterp spec fn smaz_expand_of(b: Seq<u8>) -> Option<Seq<u8>>;

/// What a best-level `flate2` gzip encoder writes for the given bytes.
pub uninterp spec fn gzip_of(b: Seq<u8>) -> Seq<u8>;

/// What a `flate2` gzip decoder reads out of the given bytes (`None` for an error).
pub uninterp spec fn gunzip_of(b: Seq<u8>) -> Option<Seq<u8>>;

/// What `ascii85::encode` returns for the given bytes.
pub uninterp spec fn ascii85_of(b: Seq<u8>) -> Seq<char>;

/// What `ascii85::decode` returns for the given text.
pub uninterp spec fn ascii85_decode_of(t: Seq<char>) -> Seq<u8>;

/// An ASCII85 digit: `!` (33) to `u` (117).
pub open spec fn is_digit85(c: u8) -> bool {
    33 <= c <= 117
}

/// The number that a run of ASCII85 digits stands for, most significant first.
pub open spec fn digits_value(g: Seq<u8>) -> int
    decreases g.len(),
{
    if g.len() == 0 {
        0
    } else {
        digits_value(g.drop_last()) * 85 + (g.last() - 33)
    }
}

/// The `k`-th group of five digits of `body`; a short last group is padded with `u`.
pub open spec fn group_at(body: Seq<u8>, k: int) -> Seq<u8> {
    Seq::new(5, |j: int| if 5 * k + j < body.len() { body[5 * k + j] } else { 117u8 })
}

/// The number of (possibly short) groups of five digits in `body`.
pub open spec fn group_count(body: Seq<u8>) -> int {
    (body.len() as int + 4) / 5
}

/// The digits between `<~` and `~>`.
pub open spec fn token_body(t: Seq<u8>) -> Seq<u8> {
    t.subrange(2, t.len() - 2)
}

/// A framed ASCII85 token: `<~`, digits whose groups each fit in 32 bits, `~>`.
pub open spec fn ascii85_framed(t: Seq<u8>) -> bool {
    &&& t.len() >= 4
    &&& t[0] == 60u8 && t[1] == 126u8
    &&& t[t.len() - 2] == 126u8 && t[t.len() - 1] == 62u8
    &&& forall|i: int| 0 <= i < token_body(t).len() ==> is_digit85(#[trigger] token_body(t)[i])
    &&& forall|k: int|
        0 <= k < group_count(token_body(t)) ==> digits_value(#[trigger] group_at(token_body(t), k))
            <= u32::MAX
}

/// A smaz stream that can be walked to its end: each literal marker (254, or
/// 255 with a length) is followed by the bytes it announces, or the stream is
/// cut short inside a 255 run, which smaz reports as an error.
pub open spec fn smaz_framed(b: Seq<u8>) -> bool
    decreases b.len(),
{
    if b.len() == 0 {
        true
    } else if b[0] == 254u8 {
        b.len() >= 2 && smaz_framed(b.skip(2))
    } else if b[0] == 255u8 {
        b.len() >= 2 && (b[1] + 2 >= b.len() || smaz_framed(b.skip(3 + b[1])))
    } else {
        smaz_framed(b.skip(1))
    }
}

/// The token for `text`.
pub open spec fn token_of(text: Seq<char>) -> Seq<char> {
    ascii85_of(gzip_of(smaz_of(encode_utf8(text))))
}

/// What decoding `t` gives: each stage in turn, the first failing stage naming the error.
pub open spec fn decode_spec(t: Seq<char>) -> Result<Seq<char>, DecodeError> {
    if !ascii85_framed(encode_utf8(t)) {
        Err(DecodeError::NotAscii85)
    } else {
        match gunzip_of(ascii85_decode_of(t)) {
            None => Err(DecodeError::Inflate),
            Some(inflated) => if !smaz_framed(inflated) {
                Err(DecodeError::Dictionary)
            } else {
                match smaz_expand_of(inflated) {
                    None => Err(DecodeError::Dictionary),
                    Some(expanded) => if valid_utf8(expanded) {
                        Ok(decode_utf8(expanded))
                    } else {
                        Err(DecodeError::NotUtf8)
                    },
                }
            },
        }
    }
}

/// Relies on `smaz::compress`; its output walks cleanly (literals are flushed
/// as 254 + byte or 255 + length + bytes) and `smaz::decompress` inverts it.
#[verifier::external_body]
fn smaz_compress(b: &[u8]) -> (r: Vec<u8>)
    ensures
        r@ == smaz_of(b@),
        smaz_framed(r@),
        smaz_expand_of(r@) == Some(b@),
{
    smaz::compress(b)
}

/// Relies on `smaz::decompress`, which panics only on a stream that does not walk cleanly.
#[verifier::external_body]
fn smaz_expand(b: &[u8]) -> (r: Option<Vec<u8>>)
    requires
        smaz_framed(b@),
    ensures
        match r {
            Some(v) => smaz_expand_of(b@) == Some(v@),
            None => smaz_expand_of(b@) is None,
        },
{
    smaz::decompress(b).ok()
}

/// Relies on `flate2::write::GzEncoder` at `Compression::best()` writing into a
/// `Vec` (which cannot fail), and on `flate2::read::GzDecoder` inverting it.
#[verifier::external_body]
fn gzip_best(b: &[u8]) -> (r: Vec<u8>)
    ensures
        r@ == gzip_of(b@),
        gunzip_of(r@) == Some(b@),
{
    let mut encoder = flate2::write::GzEncoder::new(Vec::new(), flate2::Compression::best());
    encoder.write_all(b).unwrap();
    encoder.finish().unwrap()
}

/// Relies on `flate2::read::GzDecoder` read to its end.
#[verifier::external_body]
fn gunzip(b: &[u8]) -> (r: Option<Vec<u8>>)
    ensures
        match r {
            Some(v) => gunzip_of(b@) == Some(v@),
            None => gunzip_of(b@) is None,
        },
{
    let mut decoder = flate2::read::GzDecoder::new(b);
    let mut out = Vec::new();
    match decoder.read_to_end(&mut out) {
        Ok(_) => Some(out),
        Err(_) => None,
    }
}

/// Relies on `ascii85::encode`: `<~`, five digits per four bytes (fewer for a
/// short last group, computed from a `u32`), `~>`; `ascii85::decode` inverts it.
#[verifier::external_body]
fn ascii85_encode(b: &[u8]) -> (r: String)
    ensures
        r@ == ascii85_of(b@),
        ascii85_framed(encode_utf8(r@)),
        ascii85_decode_of(r@) == b@,
{
    ascii85::encode(b)
}

/// Relies on `ascii85::decode`, which succeeds on a framed token and
/// overflows a `u32` on a group that does not fit.
#[verifier::external_body]
fn ascii85_decode(s: &str) -> (r: Vec<u8>)
    requires
        ascii85_framed(encode_utf8(s@)),
    ensures
        r@ == ascii85_decode_of(s@),
{
    ascii85::decode(s).unwrap()
}

/// Relies on `String::from_utf8`: it accepts exactly the UTF-8 byte strings.
#[verifier::external_body]
fn utf8_string(b: Vec<u8>) -> (r: Option<String>)
    ensures
        r is Some <==> valid_utf8(b@),
        r matches Some(t) ==> t@ == decode_utf8(b@),
{
    String::from_utf8(b).ok()
}

/// Encodes `text` as a signal token. Decoding the token gives `text` back.
pub fn encode(text: &str) -> (r: String)
    ensures
        r@ == token_of(text@),
        decode_spec(r@) == Ok::<Seq<char>, DecodeError>(text@),
{
    let packed = smaz_compress(text.as_bytes());
    let zipped = gzip_best(&packed);
    let token = ascii85_encode(&zipped);
    proof {
        let bytes = encode_utf8(text@);
        assert(smaz_expand_of(smaz_of(bytes)) == Some(bytes));
        assert(valid_utf8(bytes));
        assert(decode_utf8(bytes) == text@);
    }
    token
}

/// The value of the `k`-th group of `body`, built digit by digit.
fn group_value(body: &[u8], k: usize) -> (r: u64)
    requires
        5 * k < body@.len(),
        forall|i: int| 0 <= i < body@.len() ==> is_digit85(#[trigger] body@[i]),
    ensures
        r as int == digits_value(group_at(body@, k as int)),
{
    let ghost g = group_at(body@, k as int);
    let mut v: u64 = 0;
    let mut p: u64 = 1;
    let mut j: usize = 0;
    while j < 5
        invariant
            0 <= j <= 5,
            5 * k < body@.len(),
            forall|i: int| 0 <= i < body@.len() ==> is_digit85(#[trigger] body@[i]),
            v as int == digits_value(g.take(j as int)),
            g == group_at(body@, k as int),
            v < p,
            p as int == pow85(j as int),
        decreases 5 - j,
    {
        let d: u64 = if j < body.len() - 5 * k {
            (body[5 * k + j] - 33) as u64
        } else {
            84
        };
        proof {
            assert(g.take(j as int + 1).drop_last() =~= g.take(j as int));
            assert(d == g[j as int] - 33);
            lemma_pow85_values();
            assert(pow85(j as int + 1) == pow85(j as int) * 85);
            assert(v * 85 + d < p * 85) by (nonlinear_arith)
                requires
                    v < p,
                    d <= 84,
            ;
        }
        v = v * 85 + d;
        p = p * 85;
        j = j + 1;
    }
    assert(g.take(5) =~= g);
    v
}

/// Powers of 85.
pub open spec fn pow85(j: int) -> int
    decreases j,
{
    if j <= 0 {
        1
    } else {
        pow85(j - 1) * 85
    }
}

proof fn lemma_pow85_values()
    ensures
        pow85(0) == 1,
        pow85(1) == 85,
        pow85(2) == 7225,
        pow85(3) == 614125,
        pow85(4) == 52200625,
        pow85(5) == 4437053125,
{
    reveal_with_fuel(pow85, 6);
}

/// Whether `t` is a framed ASCII85 token that `ascii85::decode` takes without overflow.
pub fn is_ascii85_token(t: &[u8]) -> (r: bool)
    ensures
        r == ascii85_framed(t@),
{
    let n = t.len();
    if n < 4 || t[0] != 60 || t[1] != 126 || t[n - 2] != 126 || t[n - 1] != 62 {
        return false;
    }
    let ghost body = token_body(t@);
    let mut digits: Vec<u8> = Vec::new();
    let mut i: usize = 2;
    while i < n - 2
        invariant
            4 <= n == t@.len(),
            2 <= i <= n - 2,
            body == token_body(t@),
            digits@ =~= t@.subrange(2, i as int),
            forall|m: int| 0 <= m < digits@.len() ==> is_digit85(#[trigger] digits@[m]),
        decreases n - 2 - i,
    {
        let c = t[i];
        if c < 33 || c > 117 {
            assert(body[i - 2] == c);
            return false;
        }
        digits.push(c);
        i = i + 1;
    }
    assert(digits@ =~= body);
    let groups: usize = (digits.len() + 4) / 5;
    let mut k: usize = 0;
    while k < groups
        invariant
            digits@ == body,
            body == token_body(t@),
            groups == group_count(body),
            0 <= k <= groups,
            forall|m: int| 0 <= m < digits@.len() ==> is_digit85(#[trigger] digits@[m]),
            forall|q: int| 0 <= q < k ==> digits_value(#[trigger] group_at(body, q)) <= u32::MAX,
        decreases groups - k,
    {
        let v = group_value(digits.as_slice(), k);
        if v > 4294967295 {
            return false;
        }
        k = k + 1;
    }
    true
}

/// Whether `b` is a smaz stream that `smaz::decompress` walks without running off its end.
pub fn is_smaz_framed(b: &[u8]) -> (r: bool)
    ensures
        r == smaz_framed(b@),
{
    let n = b.len();
    let mut i: usize = 0;
    assert(b@.skip(0) =~= b@);
    while i < n
        invariant
            n == b@.len(),
            i <= n,
            smaz_framed(b@) == smaz_framed(b@.skip(i as int)),
        decreases n - i,
    {
        let ghost rest = b@.skip(i as int);
        let c = b[i];
        if c == 254 {
            if n - i < 2 {
                return false;
            }
            assert(rest.skip(2) =~= b@.skip(i + 2));
            i = i + 2;
        } else if c == 255 {
            if n - i < 2 {
                return false;
            }
            let len = b[i + 1] as usize;
            if len + 2 >= n - i {
                return true;
            }
            assert(rest.skip(3 + len) =~= b@.skip(i + 3 + len));
            i = i + 3 + len;
        } else {
            assert(rest.skip(1) =~= b@.skip(i + 1));
            i = i + 1;
        }
    }
    true
}

/// Decodes a signal token back to its text.
pub fn decode(token: &str) -> (r: Result<String, DecodeError>)
    ensures
        match r {
            Ok(text) => decode_spec(token@) == Ok::<Seq<char>, DecodeError>(text@),
            Err(e) => decode_spec(token@) == Err::<Seq<char>, DecodeError>(e),
        },
{
    if !is_ascii85_token(token.as_bytes()) {
        return Err(DecodeError::NotAscii85);
    }
    let raw = ascii85_decode(token);
    let inflated = match gunzip(&raw) {
        Some(v) => v,
        None => return Err(DecodeError::Inflate),
    };
    if !is_smaz_framed(&inflated) {
        return Err(DecodeError::Dictionary);
    }
    let expanded = match smaz_expand(&inflated) {
        Some(v) => v,
        None => return Err(DecodeError::Dictionary),
    };
    match utf8_string(expanded) {
        Some(text) => Ok(text),
        None => Err(DecodeError::NotUtf8),
    }
}

} // verus!
