//! Query strings in the `application/x-www-form-urlencoded` format, written
//! through the `url` crate's form serializer.

use url::form_urlencoded::Serializer;
use vstd::prelude::*;
use vstd::utf8::encode_utf8;

verus! {

/// A query string being written: the `url` crate's form serializer over a `String`.
/// Its contents are hidden from the prover, since the serializer's type cannot be
/// declared to it; `form_text` and `form_finished` name what it holds.
#[verifier::external_body]
pub struct FormQuery {
    inner: Serializer<'static, String>,
}

/// The text that a form serializer has written into its target so far.
pub uninterp spec fn form_text(q: FormQuery) -> Seq<char>;

/// Whether a form serializer has handed its target back already.
pub uninterp spec fn form_finished(q: FormQuery) -> bool;

/// Bytes that the form encoding leaves as they are.
pub open spec fn form_unchanged_byte(b: u8) -> bool {
    b == 0x2a || b == 0x2d || b == 0x2e || b == 0x5f || (0x30 <= b <= 0x39) || (0x41 <= b <= 0x5a)
        || (0x61 <= b <= 0x7a)
}

/// An uppercase hexadecimal digit, for `d < 16`.
pub open spec fn hex_upper(d: u8) -> char {
    if d < 10 {
        (d + 0x30) as char
    } else {
        (d - 10 + 0x41) as char
    }
}

/// The form encoding of one byte: itself, `+` for a space, else `%XX`.
pub open spec fn form_byte(b: u8) -> Seq<char> {
    if form_unchanged_byte(b) {
        seq![b as char]
    } else if b == 0x20 {
        seq!['+']
    } else {
        seq!['%', hex_upper(b / 16), hex_upper(b % 16)]
    }
}

/// The form encoding of a byte string, byte by byte.
pub open spec fn form_bytes(bs: Seq<u8>) -> Seq<char>
    decreases bs.len(),
{
    if bs.len() == 0 {
        Seq::empty()
    } else {
        form_bytes(bs.drop_last()) + form_byte(bs.last())
    }
}

/// The form encoding of a text: that of its UTF-8 bytes.
pub open spec fn form_component(s: Seq<char>) -> Seq<char> {
    form_bytes(encode_utf8(s))
}

/// The text after one more `name=value` pair: an `&` first unless the text is empty.
pub open spec fn form_append(text: Seq<char>, name: Seq<char>, value: Seq<char>) -> Seq<char> {
    let sep = if text.len() > 0 {
        seq!['&']
    } else {
        Seq::empty()
    };
    text + sep + form_component(name) + seq!['='] + form_component(value)
}

/// The form-encoded text of a list of pairs, in their order.
pub open spec fn form_serialized(pairs: Seq<(Seq<char>, Seq<char>)>) -> Seq<char>
    decreases pairs.len(),
{
    if pairs.len() == 0 {
        Seq::empty()
    } else {
        form_append(form_serialized(pairs.drop_last()), pairs.last().0, pairs.last().1)
    }
}

pub proof fn lemma_form_serialized_push(pairs: Seq<(Seq<char>, Seq<char>)>, name: Seq<char>, value: Seq<char>)
    ensures
        form_serialized(pairs.push((name, value))) == form_append(form_serialized(pairs), name, value),
{
    assert(pairs.push((name, value)).drop_last() =~= pairs);
}

/// Relies on `Serializer::new` with an empty `String`: nothing written, not finished.
#[verifier::external_body]
pub(crate) fn new_form() -> (r: FormQuery)
    ensures
        form_text(r) == Seq::<char>::empty(),
        !form_finished(r),
{
    FormQuery { inner: Serializer::new(String::new()) }
}

/// Relies on `Serializer::append_pair`: with no encoding override it writes `&`
/// when the target is not empty, then the encoded name, `=` and the encoded value.
#[verifier::external_body]
pub(crate) fn append_pair(q: &mut FormQuery, name: &str, value: &str)
    requires
        !form_finished(*old(q)),
    ensures
        form_text(*final(q)) == form_append(form_text(*old(q)), name@, value@),
        !form_finished(*final(q)),
{
    q.inner.append_pair(name, value);
}

/// Relies on `Serializer::finish`: it hands back the target string.
#[verifier::external_body]
pub(crate) fn finish_form(q: FormQuery) -> (r: String)
    requires
        !form_finished(q),
    ensures
        r@ == form_text(q),
{
    let mut q = q;
    q.inner.finish()
}

} // verus!
