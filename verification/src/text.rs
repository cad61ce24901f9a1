//! Text helpers: string equality and UTF-8 decoding of byte fields.

use vstd::prelude::*;
use vstd::string::StringSliceAdditionalSpecFns;
use vstd::utf8::*;

verus! {

broadcast use vstd::string::group_string_axioms;

/// Compares two string slices by their characters.
pub fn str_eq(a: &str, b: &str) -> (r: bool)
    ensures
        r == (a@ == b@),
{
    let ab = a.as_bytes();
    let bb = b.as_bytes();
    proof {
        encode_utf8_decode_utf8(a@);
        encode_utf8_decode_utf8(b@);
    }
    if ab.len() != bb.len() {
        return false;
    }
    let n: usize = ab.len();
    let mut i: usize = 0;
    while i < n
        invariant
            n == ab@.len(),
            ab@ == a.spec_bytes(),
            bb@ == b.spec_bytes(),
            n == bb@.len(),
            0 <= i <= n,
            forall|j: int| 0 <= j < i ==> ab@[j] == bb@[j],
        decreases n - i,
    {
        if ab[i] != bb[i] {
            return false;
        }
        i = i + 1;
    }
    proof {
        assert(ab@ =~= bb@);
    }
    true
}

/// Wraps `std::str::from_utf8`, which accepts a byte slice exactly when it is
/// well-formed UTF-8 and then returns a string slice over the same bytes.
/// Claimed: the result is `Some` exactly when `valid_utf8` holds of the bytes,
/// and the returned slice is encoded by those very bytes.
#[verifier::external_body]
fn utf8_str(bytes: &[u8]) -> (r: Option<&str>)
    ensures
        r is Some <==> valid_utf8(bytes@),
        r matches Some(s) ==> s.spec_bytes() == bytes@,
{
    std::str::from_utf8(bytes).ok()
}

/// A padding character of a fixed-length text field: NUL or space.
pub open spec fn is_pad_char(c: char) -> bool {
    c == '\0' || c == ' '
}

/// A padding byte of a fixed-length text field: NUL (0x00) or space (0x20).
pub open spec fn is_pad_byte(b: u8) -> bool {
    b == 0 || b == 32
}

/// The characters left once all trailing padding characters are removed.
pub open spec fn trim_pad(chars: Seq<char>) -> Seq<char>
    decreases chars.len(),
{
    if chars.len() > 0 && is_pad_char(chars.last()) {
        trim_pad(chars.drop_last())
    } else {
        chars
    }
}

/// The text held by a fixed-length byte field: the field decoded as UTF-8
/// without its trailing padding, or the empty text when the field is not
/// well-formed UTF-8.
pub open spec fn field_text(field: Seq<u8>) -> Seq<char> {
    if valid_utf8(field) {
        trim_pad(decode_utf8(field))
    } else {
        Seq::empty()
    }
}

/// The length of a byte field once its trailing padding bytes are removed.
fn unpadded_len(field: &[u8]) -> (n: usize)
    ensures
        n <= field@.len(),
        forall|j: int| n <= j < field@.len() ==> is_pad_byte(#[trigger] field@[j]),
        n > 0 ==> !is_pad_byte(field@[n - 1]),
{
    let mut n: usize = field.len();
    while n > 0 && (field[n - 1] == 0 || field[n - 1] == 32)
        invariant
            n <= field@.len(),
            forall|j: int| n <= j < field@.len() ==> is_pad_byte(#[trigger] field@[j]),
        decreases n,
    {
        n = n - 1;
    }
    n
}

/// Encoding a concatenation encodes each part in turn.
proof fn lemma_encode_concat(x: Seq<char>, y: Seq<char>)
    ensures
        encode_utf8(x + y) == encode_utf8(x) + encode_utf8(y),
    decreases x.len(),
{
    if x.len() == 0 {
        assert(x + y =~= y);
        assert(encode_utf8(x) + encode_utf8(y) =~= encode_utf8(y));
    } else {
        assert((x + y).drop_first() =~= x.drop_first() + y);
        lemma_encode_concat(x.drop_first(), y);
        assert(encode_utf8(x + y) =~= encode_utf8(x) + encode_utf8(y));
    }
}

/// Bytes below 0x80 are valid UTF-8 and decode to the characters with the same values.
proof fn lemma_decode_ascii(bytes: Seq<u8>)
    requires
        forall|i: int| 0 <= i < bytes.len() ==> #[trigger] bytes[i] < 128,
    ensures
        valid_utf8(bytes),
        decode_utf8(bytes) == Seq::new(bytes.len(), |i: int| bytes[i] as char),
{
    let chars = Seq::new(bytes.len(), |i: int| bytes[i] as char);
    assert(is_ascii_chars(chars));
    is_ascii_chars_encode_utf8(chars);
    assert(encode_utf8(chars) =~= bytes);
    encode_utf8_valid_utf8(chars);
    encode_utf8_decode_utf8(chars);
}

/// Trailing padding after the text does not survive trimming.
proof fn lemma_trim_pad_suffix(p: Seq<char>, s: Seq<char>)
    requires
        forall|i: int| 0 <= i < s.len() ==> is_pad_char(#[trigger] s[i]),
    ensures
        trim_pad(p + s) == trim_pad(p),
    decreases s.len(),
{
    if s.len() == 0 {
        assert(p + s =~= p);
    } else {
        assert((p + s).drop_last() =~= p + s.drop_last());
        assert((p + s).last() == s.last());
        lemma_trim_pad_suffix(p, s.drop_last());
    }
}

/// A text whose encoding does not end in a padding byte does not end in a padding character.
proof fn lemma_last_not_pad(p: Seq<char>)
    requires
        p.len() > 0,
        !is_pad_byte(encode_utf8(p).last()),
    ensures
        !is_pad_char(p.last()),
{
    let c = p.last();
    assert(p =~= p.drop_last() + seq![c]);
    lemma_encode_concat(p.drop_last(), seq![c]);
    assert(encode_utf8(Seq::<char>::empty()) =~= Seq::<u8>::empty());
    assert(seq![c].drop_first() =~= Seq::<char>::empty());
    assert(seq![c][0] == c);
    assert(encode_utf8(seq![c]) =~= encode_scalar(c as u32));
    assert(leading_byte_width_1(0u32) == 0u8) by (bit_vector);
    assert(leading_byte_width_1(32u32) == 32u8) by (bit_vector);
}

/// Padding is exactly NUL and space, as bytes and as characters.
pub proof fn lemma_padding_is_nul_or_space()
    ensures
        forall|b: u8| #[trigger] is_pad_byte(b) <==> (b == 0u8 || b == 32u8),
        forall|c: char| #[trigger] is_pad_char(c) <==> (c == '\0' || c == ' '),
{
}

/// Trimming removes exactly the trailing run of NUL and space characters:
/// the result is a prefix of the text, everything after it is NUL or space,
/// and it does not itself end in NUL or space.
pub proof fn lemma_trim_removes_trailing_nul_space(chars: Seq<char>)
    ensures
        trim_pad(chars).len() <= chars.len(),
        trim_pad(chars) == chars.subrange(0, trim_pad(chars).len() as int),
        forall|i: int|
            trim_pad(chars).len() <= i < chars.len() ==> #[trigger] chars[i] == '\0' || chars[i]
                == ' ',
        trim_pad(chars).len() > 0 ==> trim_pad(chars).last() != '\0' && trim_pad(chars).last()
            != ' ',
    decreases chars.len(),
{
    lemma_trim_pad_no_trailing_pad(chars);
    if chars.len() > 0 && is_pad_char(chars.last()) {
        lemma_trim_removes_trailing_nul_space(chars.drop_last());
        assert forall|i: int| trim_pad(chars).len() <= i < chars.len() implies #[trigger] chars[i]
            == '\0' || chars[i] == ' ' by {
            if i < chars.len() - 1 {
                assert(chars.drop_last()[i] == chars[i]);
            }
        }
    }
}

/// The text of a field: when the field is well-formed UTF-8, its decoded
/// characters up to the trailing run of NUL and space characters; otherwise
/// the empty text.
pub proof fn lemma_field_text(field: Seq<u8>)
    ensures
        !valid_utf8(field) ==> field_text(field).len() == 0,
        valid_utf8(field) ==> {
            let chars = decode_utf8(field);
            let t = field_text(field);
            &&& t.len() <= chars.len()
            &&& t == chars.subrange(0, t.len() as int)
            &&& forall|i: int| t.len() <= i < chars.len() ==> #[trigger] chars[i] == '\0' || chars[i] == ' '
            &&& t.len() > 0 ==> t.last() != '\0' && t.last() != ' '
        },
{
    if valid_utf8(field) {
        lemma_trim_removes_trailing_nul_space(decode_utf8(field));
    }
}

/// Trimmed text never ends in a padding character.
pub proof fn lemma_trim_pad_no_trailing_pad(chars: Seq<char>)
    ensures
        trim_pad(chars).len() > 0 ==> !is_pad_char(trim_pad(chars).last()),
        trim_pad(chars).len() <= chars.len(),
        trim_pad(chars) == chars.subrange(0, trim_pad(chars).len() as int),
    decreases chars.len(),
{
    if chars.len() > 0 && is_pad_char(chars.last()) {
        lemma_trim_pad_no_trailing_pad(chars.drop_last());
        assert(chars.drop_last().subrange(0, trim_pad(chars).len() as int) =~= chars.subrange(
            0,
            trim_pad(chars).len() as int,
        ));
    } else {
        assert(chars.subrange(0, chars.len() as int) =~= chars);
    }
}

/// A field written the documented way, an ASCII text that does not end in
/// NUL or space followed by spaces or NULs, gives exactly that text back.
pub proof fn lemma_padded_ascii_text(text: Seq<u8>, pad: Seq<u8>)
    requires
        forall|i: int| 0 <= i < text.len() ==> #[trigger] text[i] < 128,
        text.len() > 0 ==> text.last() != 0u8 && text.last() != 32u8,
        forall|i: int| 0 <= i < pad.len() ==> #[trigger] pad[i] == 0u8 || pad[i] == 32u8,
    ensures
        field_text(text + pad) == Seq::new(text.len(), |i: int| text[i] as char),
{
    let field = text + pad;
    assert forall|i: int| 0 <= i < field.len() implies #[trigger] field[i] < 128 by {
        if i >= text.len() {
            assert(is_pad_byte(pad[i - text.len()]));
        }
    }
    lemma_decode_ascii(field);
    lemma_decode_ascii(text);
    let chars = Seq::new(text.len(), |i: int| text[i] as char);
    let tail = Seq::new(pad.len(), |i: int| pad[i] as char);
    assert(decode_utf8(field) =~= chars + tail);
    assert forall|i: int| 0 <= i < tail.len() implies is_pad_char(#[trigger] tail[i]) by {
        assert(is_pad_byte(pad[i]));
    }
    lemma_trim_pad_suffix(chars, tail);
    if chars.len() > 0 {
        assert(chars.last() == text.last() as char);
    }
    assert(trim_pad(chars) == chars);
}

/// The text of a fixed-length field: the field decoded as UTF-8, with trailing
/// NUL and space characters removed; the empty text when the field is not
/// well-formed UTF-8.
pub fn field_str(field: &[u8]) -> (r: &str)
    ensures
        r@ == field_text(field@),
{
    match utf8_str(field) {
        None => {
            let empty = "";
            proof {
                reveal_strlit("");
                assert(empty@ =~= Seq::<char>::empty());
            }
            empty
        },
        Some(s) => {
            let n: usize = unpadded_len(field);
            let ghost b = field@;
            proof {
                if n == b.len() {
                    is_char_boundary_start_end_of_seq(b);
                    assert(b.subrange(0, n as int) =~= b);
                } else {
                    is_char_boundary_iff_not_is_continuation_byte(b, n as int);
                    assert(is_pad_byte(b[n as int]));
                }
            }
            let (head, _) = s.split_at(n);
            proof {
                let pre = b.subrange(0, n as int);
                let post = b.subrange(n as int, b.len() as int);
                decode_utf8_split(b, n as int);
                valid_utf8_split(b, n as int);
                assert forall|i: int| 0 <= i < post.len() implies #[trigger] post[i] < 128 by {
                    assert(is_pad_byte(b[n + i]));
                }
                lemma_decode_ascii(post);
                let tail = decode_utf8(post);
                assert forall|i: int| 0 <= i < tail.len() implies is_pad_char(#[trigger] tail[i]) by {
                    assert(is_pad_byte(post[i]));
                }
                let p = decode_utf8(pre);
                lemma_trim_pad_suffix(p, tail);
                decode_utf8_encode_utf8(pre);
                if p.len() > 0 {
                    assert(encode_utf8(p).last() == b[n - 1]);
                    lemma_last_not_pad(p);
                }
                assert(trim_pad(p) == p);
                encode_utf8_decode_utf8(head@);
                assert(head@ == p);
            }
            head
        },
    }
}

} // verus!
