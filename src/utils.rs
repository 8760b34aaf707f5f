//! Decoding of fixed-size, zero-terminated text buffers filled by foreign code.
use vstd::prelude::*;

verus! {

/// The text that lossy UTF-8 decoding makes of a byte sequence.
pub uninterp spec fn utf8_lossy(b: Seq<u8>) -> Seq<char>;

/// Every byte is below 0x80.
pub open spec fn all_ascii(b: Seq<u8>) -> bool {
    forall|i: int| 0 <= i < b.len() ==> b[i] < 128
}

/// A UTF-16 leading surrogate.
pub open spec fn is_high_surrogate(u: u16) -> bool {
    0xD800 <= u <= 0xDBFF
}

/// A UTF-16 trailing surrogate.
pub open spec fn is_low_surrogate(u: u16) -> bool {
    0xDC00 <= u <= 0xDFFF
}

/// The text that lossy UTF-16 decoding makes of code units: a leading surrogate
/// followed by a trailing one gives one character, any other surrogate gives
/// U+FFFD, and every other unit gives the character it numbers.
pub open spec fn utf16_lossy(u: Seq<u16>) -> Seq<char>
    decreases u.len(),
{
    if u.len() == 0 {
        seq![]
    } else if u.len() >= 2 && is_high_surrogate(u[0]) && is_low_surrogate(u[1]) {
        seq![(0x10000 + (u[0] - 0xD800) * 1024 + (u[1] - 0xDC00)) as char] + utf16_lossy(
            u.subrange(2, u.len() as int),
        )
    } else if is_high_surrogate(u[0]) || is_low_surrogate(u[0]) {
        seq!['\u{FFFD}'] + utf16_lossy(u.drop_first())
    } else {
        seq![u[0] as char] + utf16_lossy(u.drop_first())
    }
}

/// Lossy UTF-16 decoding gives the empty text exactly for no units.
pub proof fn lemma_utf16_lossy_empty(u: Seq<u16>)
    ensures
        (utf16_lossy(u).len() == 0) == (u.len() == 0),
{
}

/// Relies on `String::from_utf8_lossy`: every byte sequence decodes, an empty one
/// to the empty string and any other to a non-empty one; valid UTF-8, ASCII
/// among it, is kept as it is.
#[verifier::external_body]
pub(crate) fn decode_utf8_lossy(b: &[u8]) -> (r: String)
    ensures
        r@ == utf8_lossy(b@),
        (b@.len() == 0) == (r@.len() == 0),
        all_ascii(b@) ==> r@ == b@.map_values(|c: u8| c as char),
{
    String::from_utf8_lossy(b).into_owned()
}

/// Relies on `String::from_utf16_lossy`: surrogate pairs are joined, every
/// unpaired surrogate becomes U+FFFD, and every other unit is kept.
#[verifier::external_body]
pub(crate) fn decode_utf16_lossy(u: &[u16]) -> (r: String)
    ensures
        r@ == utf16_lossy(u@),
{
    String::from_utf16_lossy(u)
}

/// Position of the first zero unit of `s`, or its length when it holds none.
pub open spec fn nul_pos<T>(s: Seq<T>, zero: T) -> nat
    decreases s.len(),
{
    if s.len() == 0 || s[0] == zero {
        0
    } else {
        1 + nul_pos(s.drop_first(), zero)
    }
}

/// The units of `s` before its first zero unit.
pub open spec fn until_nul<T>(s: Seq<T>, zero: T) -> Seq<T> {
    s.take(nul_pos(s, zero) as int)
}

/// The bytes of a narrow buffer up to its terminator, read as unsigned.
pub open spec fn narrow_text(d: Seq<i8>) -> Seq<u8> {
    until_nul(d.map_values(|c: i8| c as u8), 0u8)
}

/// The code units of a wide buffer up to its terminator, read as unsigned.
pub open spec fn wide_text(d: Seq<i16>) -> Seq<u16> {
    until_nul(d.map_values(|c: i16| c as u16), 0u16)
}

/// The text held in a narrow buffer.
pub open spec fn narrow_string(d: Seq<i8>) -> Seq<char> {
    utf8_lossy(narrow_text(d))
}

/// The text held in a wide buffer.
pub open spec fn wide_string(d: Seq<i16>) -> Seq<char> {
    utf16_lossy(wide_text(d))
}

/// The first zero of `s` is at `i` when no unit before `i` is zero and `i` ends
/// `s` or holds a zero.
pub proof fn lemma_nul_pos<T>(s: Seq<T>, zero: T, i: int)
    requires
        0 <= i <= s.len(),
        forall|j: int| 0 <= j < i ==> s[j] != zero,
        i == s.len() || s[i] == zero,
    ensures
        nul_pos(s, zero) == i,
    decreases i,
{
    if i > 0 {
        let t = s.drop_first();
        assert forall|j: int| 0 <= j < i - 1 implies t[j] != zero by {
            assert(t[j] == s[j + 1]);
        }
        if i < s.len() {
            assert(t[i - 1] == s[i]);
        }
        lemma_nul_pos(t, zero, i - 1);
    }
}

/// Decodes a narrow buffer: 8-bit units up to the first zero or the end,
/// decoded lossily.
pub fn i8_to_string(data: &[i8]) -> (r: String)
    ensures
        r@ == narrow_string(data@),
        (r@.len() == 0) == (narrow_text(data@).len() == 0),
{
    let units = narrow_units(data);
    decode_utf8_lossy(units.as_slice())
}

/// The bytes of a narrow buffer before its terminator.
fn narrow_units(data: &[i8]) -> (r: Vec<u8>)
    ensures
        r@ == narrow_text(data@),
{
    let ghost m = data@.map_values(|c: i8| c as u8);
    let mut out: Vec<u8> = Vec::new();
    let mut i: usize = 0;
    while i < data.len() && data[i] != 0
        invariant
            i <= data@.len(),
            m == data@.map_values(|c: i8| c as u8),
            out@ == m.take(i as int),
            forall|j: int| 0 <= j < i ==> m[j] != 0u8,
        decreases data@.len() - i,
    {
        let c: i8 = data[i];
        out.push(c as u8);
        assert(m[i as int] == c as u8);
        assert(c as u8 != 0u8) by (bit_vector)
            requires c != 0i8;
        assert(out@ =~= m.take(i + 1));
        i = i + 1;
    }
    proof {
        if i < data@.len() {
            assert(m[i as int] == 0u8);
        }
        lemma_nul_pos(m, 0u8, i as int);
    }
    out
}

/// Decodes a wide buffer: 16-bit units up to the first zero or the end,
/// decoded lossily.
pub fn i16_to_string(data: &[i16]) -> (r: String)
    ensures
        r@ == wide_string(data@),
        (r@.len() == 0) == (wide_text(data@).len() == 0),
{
    let ghost m = data@.map_values(|c: i16| c as u16);
    let mut units: Vec<u16> = Vec::new();
    let mut i: usize = 0;
    while i < data.len() && data[i] != 0
        invariant
            i <= data@.len(),
            m == data@.map_values(|c: i16| c as u16),
            units@ == m.take(i as int),
            forall|j: int| 0 <= j < i ==> m[j] != 0u16,
        decreases data@.len() - i,
    {
        let c: i16 = data[i];
        units.push(c as u16);
        assert(m[i as int] == c as u16);
        assert(c as u16 != 0u16) by (bit_vector)
            requires c != 0i16;
        assert(units@ =~= m.take(i + 1));
        i = i + 1;
    }
    proof {
        if i < data@.len() {
            assert(m[i as int] == 0u16);
        }
        lemma_nul_pos(m, 0u16, i as int);
        lemma_utf16_lossy_empty(units@);
    }
    decode_utf16_lossy(units.as_slice())
}

/// Reading `b` left to right: the non-empty segments closed by a '|' so far,
/// and the segment still open.
pub open spec fn pipe_scan(b: Seq<u8>) -> (Seq<Seq<u8>>, Seq<u8>)
    decreases b.len(),
{
    if b.len() == 0 {
        (seq![], seq![])
    } else {
        let (done, open) = pipe_scan(b.drop_last());
        if b.last() == 0x7Cu8 {
            (if open.len() > 0 { done.push(open) } else { done }, seq![])
        } else {
            (done, open.push(b.last()))
        }
    }
}

/// The non-empty segments of `b` between '|' separators, in order.
pub open spec fn pipe_segments(b: Seq<u8>) -> Seq<Seq<u8>> {
    let (done, open) = pipe_scan(b);
    if open.len() > 0 {
        done.push(open)
    } else {
        done
    }
}

/// The subcategories held in a narrow buffer: its text split at '|', empty
/// pieces left out, each piece decoded.
pub open spec fn subcategories_of(d: Seq<i8>) -> Seq<Seq<char>> {
    pipe_segments(narrow_text(d)).map_values(|seg: Seq<u8>| utf8_lossy(seg))
}

proof fn lemma_push_decoded(out: Seq<String>, segs: Seq<Seq<u8>>, seg: Seq<u8>, piece: String)
    requires
        out.map_values(|s: String| s@) == segs.map_values(|g: Seq<u8>| utf8_lossy(g)),
        piece@ == utf8_lossy(seg),
    ensures
        out.push(piece).map_values(|s: String| s@) == segs.push(seg).map_values(
            |g: Seq<u8>| utf8_lossy(g),
        ),
{
    let a = out.push(piece).map_values(|s: String| s@);
    let b = segs.push(seg).map_values(|g: Seq<u8>| utf8_lossy(g));
    assert(out.len() == segs.len()) by {
        assert(out.map_values(|s: String| s@).len() == out.len());
    }
    assert forall|k: int| 0 <= k < a.len() implies a[k] == b[k] by {
        if k < out.len() {
            assert(out.map_values(|s: String| s@)[k] == out[k]@);
            assert(segs.map_values(|g: Seq<u8>| utf8_lossy(g))[k] == utf8_lossy(segs[k]));
        }
    }
    assert(a =~= b);
}

/// Splits the text of a narrow buffer at '|' into its non-empty pieces.
pub fn split_subcategories(data: &[i8]) -> (r: Vec<String>)
    ensures
        r@.map_values(|s: String| s@) == subcategories_of(data@),
{
    let text = narrow_units(data);
    let ghost t = text@;
    let mut out: Vec<String> = Vec::new();
    let mut open: Vec<u8> = Vec::new();
    let mut i: usize = 0;
    while i < text.len()
        invariant
            i <= t.len(),
            t == text@,
            open@ == pipe_scan(t.take(i as int)).1,
            out@.map_values(|s: String| s@) == pipe_scan(t.take(i as int)).0.map_values(
                |seg: Seq<u8>| utf8_lossy(seg),
            ),
        decreases t.len() - i,
    {
        let c = text[i];
        let ghost prev = pipe_scan(t.take(i as int));
        assert(t.take(i + 1).drop_last() =~= t.take(i as int));
        assert(t.take(i + 1).last() == c);
        if c == 0x7Cu8 {
            if open.len() > 0 {
                let piece = decode_utf8_lossy(open.as_slice());
                proof {
                    lemma_push_decoded(out@, prev.0, prev.1, piece);
                }
                out.push(piece);
            }
            open = Vec::new();
        } else {
            open.push(c);
        }
        i = i + 1;
    }
    assert(t.take(t.len() as int) =~= t);
    let ghost last = pipe_scan(t);
    if open.len() > 0 {
        let piece = decode_utf8_lossy(open.as_slice());
        proof {
            lemma_push_decoded(out@, last.0, last.1, piece);
        }
        out.push(piece);
    }
    assert(out@.map_values(|s: String| s@) =~= subcategories_of(data@));
    out
}

/// A narrow buffer holds no text exactly when it is empty or starts with its
/// terminator.
pub proof fn lemma_narrow_empty(d: Seq<i8>)
    ensures
        (narrow_text(d).len() == 0) == (d.len() == 0 || d[0] == 0i8),
{
    let m = d.map_values(|c: i8| c as u8);
    lemma_nul_pos_bound(m, 0u8);
    if d.len() > 0 {
        let c = d[0];
        assert(m[0] == #[verifier::truncate] (c as u8));
        assert((#[verifier::truncate] (c as u8) == 0u8) == (c == 0i8)) by (bit_vector);
    }
}

/// The first zero of a sequence lies within it.
pub proof fn lemma_nul_pos_bound<T>(s: Seq<T>, zero: T)
    ensures
        nul_pos(s, zero) <= s.len(),
    decreases s.len(),
{
    if s.len() > 0 && s[0] != zero {
        lemma_nul_pos_bound(s.drop_first(), zero);
    }
}

} // verus!
