//! Texts as bytes: cutting a frame into fields, comparing a field with a
//! literal, and going from bytes to strings and back.

use vstd::prelude::*;
use vstd::slice::slice_to_vec;
use vstd::utf8::*;

verus! {

/// The primary separator of data frames.
pub const CARET: u8 = 0x5e;

/// The secondary separator of data frames.
pub const PIPE: u8 = 0x7c;

/// The UTF-8 bytes of a text.
pub open spec fn bytes_of(text: Seq<char>) -> Seq<u8> {
    encode_utf8(text)
}

/// The fields of `s` when it is cut at every occurrence of `sep`.
///
/// The result always has at least one field; a separator at the very end
/// yields a trailing empty field. It is the one list of fields without a
/// separator in them that gives `s` when joined: see [`lemma_split_shape`],
/// [`lemma_join_split`] and [`lemma_split_join`].
pub open spec fn split(s: Seq<u8>, sep: u8) -> Seq<Seq<u8>>
    decreases s.len(),
{
    if s.len() == 0 {
        seq![Seq::<u8>::empty()]
    } else {
        let head = split(s.drop_last(), sep);
        if s.last() == sep {
            head.push(Seq::<u8>::empty())
        } else {
            head.drop_last().push(head.last().push(s.last()))
        }
    }
}

/// The number of occurrences of `sep` in `s`.
pub open spec fn count(s: Seq<u8>, sep: u8) -> nat
    decreases s.len(),
{
    if s.len() == 0 {
        0
    } else {
        count(s.drop_last(), sep) + if s.last() == sep { 1nat } else { 0nat }
    }
}

/// The fields joined again, with `sep` between neighbours.
pub open spec fn join(fields: Seq<Seq<u8>>, sep: u8) -> Seq<u8>
    decreases fields.len(),
{
    if fields.len() == 0 {
        Seq::<u8>::empty()
    } else if fields.len() == 1 {
        fields[0]
    } else {
        join(fields.drop_last(), sep).push(sep) + fields.last()
    }
}

/// Splitting yields one more field than there are separators, and no field
/// contains the separator.
pub proof fn lemma_split_shape(s: Seq<u8>, sep: u8)
    ensures
        split(s, sep).len() == count(s, sep) + 1,
        forall|i: int, j: int|
            0 <= i < split(s, sep).len() && 0 <= j < split(s, sep)[i].len()
                ==> split(s, sep)[i][j] != sep,
    decreases s.len(),
{
    if s.len() > 0 {
        lemma_split_shape(s.drop_last(), sep);
    }
}

/// Joining the fields of a split gives the same bytes back.
pub proof fn lemma_join_split(s: Seq<u8>, sep: u8)
    ensures
        join(split(s, sep), sep) == s,
    decreases s.len(),
{
    if s.len() == 0 {
    } else {
        let init = s.drop_last();
        let head = split(init, sep);
        lemma_join_split(init, sep);
        lemma_split_shape(init, sep);
        if s.last() == sep {
            let out = head.push(Seq::<u8>::empty());
            assert(out.drop_last() == head);
            assert(join(out, sep) == join(head, sep).push(sep) + Seq::<u8>::empty());
            assert(join(out, sep) == init.push(sep));
            assert(init.push(sep) == s);
        } else {
            let last = head.last().push(s.last());
            let out = head.drop_last().push(last);
            assert(out.drop_last() == head.drop_last());
            if head.len() == 1 {
                assert(join(head, sep) == head[0]);
                assert(join(out, sep) == last);
                assert(last == init.push(s.last()));
            } else {
                assert(join(head, sep) == join(head.drop_last(), sep).push(sep) + head.last());
                assert(join(out, sep) == join(head.drop_last(), sep).push(sep) + last);
                assert(join(out, sep) == (join(head.drop_last(), sep).push(sep) + head.last()).push(
                    s.last(),
                ));
            }
            assert(init.push(s.last()) == s);
        }
    }
}

/// A field without a separator after a separator is one more field.
pub proof fn lemma_split_append(a: Seq<u8>, b: Seq<u8>, sep: u8)
    requires
        forall|i: int| 0 <= i < b.len() ==> #[trigger] b[i] != sep,
    ensures
        split(a.push(sep) + b, sep) == split(a, sep).push(b),
    decreases b.len(),
{
    let whole = a.push(sep) + b;
    if b.len() == 0 {
        assert(whole =~= a.push(sep));
        assert(whole.drop_last() =~= a);
        assert(b =~= Seq::<u8>::empty());
    } else {
        let init = b.drop_last();
        lemma_split_append(a, init, sep);
        assert(whole.drop_last() =~= a.push(sep) + init);
        assert(whole.last() == b.last());
        let head = split(a, sep).push(init);
        assert(head.drop_last() =~= split(a, sep));
        assert(init.push(b.last()) =~= b);
    }
}

/// Fields without a separator in them are what their join splits into.
pub proof fn lemma_split_join(fields: Seq<Seq<u8>>, sep: u8)
    requires
        fields.len() >= 1,
        forall|i: int, j: int|
            0 <= i < fields.len() && 0 <= j < fields[i].len() ==> fields[i][j] != sep,
    ensures
        split(join(fields, sep), sep) == fields,
    decreases fields.len(),
{
    if fields.len() == 1 {
        lemma_split_whole(fields[0], sep);
        assert(seq![fields[0]] =~= fields);
    } else {
        let init = fields.drop_last();
        lemma_split_join(init, sep);
        lemma_split_append(join(init, sep), fields.last(), sep);
        assert(init.push(fields.last()) =~= fields);
    }
}

/// The contents of a list of byte fields.
pub open spec fn views(fields: Seq<Vec<u8>>) -> Seq<Seq<u8>> {
    Seq::new(fields.len(), |i: int| fields[i]@)
}

/// Cuts `s` at every `sep` and returns the fields in order.
pub fn split_fields(s: &[u8], sep: u8) -> (fields: Vec<Vec<u8>>)
    ensures
        views(fields@) == split(s@, sep),
{
    let mut done: Vec<Vec<u8>> = Vec::new();
    let mut current: Vec<u8> = Vec::new();
    let mut i: usize = 0;
    while i < s.len()
        invariant
            0 <= i <= s.len(),
            views(done@).push(current@) == split(s@.take(i as int), sep),
        decreases s.len() - i,
    {
        let b: u8 = s[i];
        proof {
            let next = s@.take(i + 1);
            assert(next.drop_last() == s@.take(i as int));
            assert(next.last() == b);
        }
        if b == sep {
            let ghost before = views(done@);
            let ghost cur = current@;
            done.push(current);
            current = Vec::new();
            proof {
                assert(views(done@) == before.push(cur));
            }
        } else {
            let ghost before = views(done@);
            let ghost cur = current@;
            current.push(b);
            proof {
                assert(before.push(cur).drop_last() == before);
            }
        }
        i = i + 1;
    }
    proof {
        assert(s@.take(i as int) == s@);
    }
    let ghost before = views(done@);
    let ghost cur = current@;
    done.push(current);
    proof {
        assert(views(done@) == before.push(cur));
    }
    done
}

/// Whether `field` holds exactly the bytes of the text `lit`.
pub fn is_text(field: &[u8], lit: &str) -> (r: bool)
    ensures
        r == (field@ == bytes_of(lit@)),
{
    let other: &[u8] = lit.as_bytes();
    if field.len() != other.len() {
        return false;
    }
    let mut i: usize = 0;
    while i < field.len()
        invariant
            0 <= i <= field.len(),
            field.len() == other.len(),
            other@ == bytes_of(lit@),
            forall|j: int| 0 <= j < i ==> field@[j] == other@[j],
        decreases field.len() - i,
    {
        if field[i] != other[i] {
            return false;
        }
        i = i + 1;
    }
    assert(field@ =~= other@);
    true
}

/// The text of an ASCII literal is its bytes, one byte per character.
pub proof fn lemma_ascii_bytes(chars: Seq<char>)
    requires
        is_ascii_chars(chars),
    ensures
        encode_utf8(chars).len() == chars.len(),
        forall|i: int| 0 <= i < chars.len() ==> encode_utf8(chars)[i] == chars[i] as u8,
{
    is_ascii_chars_encode_utf8(chars);
}

/// A text is read back from its own bytes.
pub proof fn lemma_literal(text: Seq<char>)
    ensures
        decode_utf8(bytes_of(text)) == text,
{
    encode_utf8_decode_utf8(text);
}

/// Two texts with the same bytes are the same text.
pub proof fn lemma_bytes_injective(a: Seq<char>, b: Seq<char>)
    requires
        encode_utf8(a) == encode_utf8(b),
    ensures
        a == b,
{
    encode_utf8_decode_utf8(a);
    encode_utf8_decode_utf8(b);
}

/// Whether two strings hold the same text.
pub fn same_text(a: &str, b: &str) -> (r: bool)
    ensures
        r == (a@ == b@),
{
    let r = is_text(a.as_bytes(), b);
    proof {
        if r {
            lemma_bytes_injective(a@, b@);
        }
    }
    r
}

/// `String::from_utf8`: the text that the bytes encode, where they are valid
/// UTF-8, and nothing where they are not.
#[verifier::external_body]
fn string_from_utf8(bytes: Vec<u8>) -> (r: Option<String>)
    ensures
        r.is_some() == valid_utf8(bytes@),
        r matches Some(s) ==> s@ == decode_utf8(bytes@),
{
    String::from_utf8(bytes).ok()
}

/// The text that `bytes` encode, or `None` where they are not valid UTF-8.
pub fn to_text(bytes: &[u8]) -> (r: Option<String>)
    ensures
        r.is_some() == valid_utf8(bytes@),
        r matches Some(s) ==> s@ == decode_utf8(bytes@) && bytes_of(s@) == bytes@,
{
    let r = string_from_utf8(slice_to_vec(bytes));
    proof {
        if valid_utf8(bytes@) {
            decode_utf8_encode_utf8(bytes@);
        }
    }
    r
}

/// Whether every byte is below 128.
pub open spec fn is_ascii_bytes(s: Seq<u8>) -> bool {
    forall|i: int| 0 <= i < s.len() ==> #[trigger] s[i] < 128
}

/// The characters of a run of ASCII bytes.
pub open spec fn ascii_chars(s: Seq<u8>) -> Seq<char> {
    Seq::new(s.len(), |i: int| s[i] as char)
}

/// A run of ASCII bytes is the encoding of its characters.
pub proof fn lemma_ascii_chars(s: Seq<u8>)
    requires
        is_ascii_bytes(s),
    ensures
        is_ascii_chars(ascii_chars(s)),
        encode_utf8(ascii_chars(s)) == s,
        valid_utf8(s),
        decode_utf8(s) == ascii_chars(s),
{
    let chars = ascii_chars(s);
    assert forall|i: int| 0 <= i < chars.len() implies '\0' <= #[trigger] chars[i] <= '\u{7f}' by {
        assert(s[i] < 128);
    }
    is_ascii_chars_encode_utf8(chars);
    assert forall|i: int| 0 <= i < s.len() implies encode_utf8(chars)[i] == s[i] by {
        assert(s[i] < 128);
        assert(chars[i] as u8 == s[i]);
    }
    assert(encode_utf8(chars) =~= s);
    encode_utf8_valid_utf8(chars);
    encode_utf8_decode_utf8(chars);
}

/// The text of a run of ASCII bytes.
pub(crate) fn ascii_text(bytes: &[u8]) -> (r: String)
    requires
        is_ascii_bytes(bytes@),
    ensures
        r@ == ascii_chars(bytes@),
        bytes_of(r@) == bytes@,
{
    proof {
        lemma_ascii_chars(bytes@);
    }
    match to_text(bytes) {
        Some(s) => s,
        None => String::new(),
    }
}

/// Bytes without the separator are one field.
pub proof fn lemma_split_whole(c: Seq<u8>, sep: u8)
    requires
        forall|i: int| 0 <= i < c.len() ==> #[trigger] c[i] != sep,
    ensures
        split(c, sep) == seq![c],
    decreases c.len(),
{
    if c.len() > 0 {
        lemma_split_whole(c.drop_last(), sep);
        let head = seq![c.drop_last()];
        assert(head.last().push(c.last()) =~= c);
        assert(head.drop_last() =~= Seq::<Seq<u8>>::empty());
        assert(head.drop_last().push(c) =~= seq![c]);
    } else {
        assert(c =~= Seq::<u8>::empty());
    }
}

/// Bytes without the separator in front of a text go into its first field.
pub proof fn lemma_split_chunk(c: Seq<u8>, rest: Seq<u8>, sep: u8)
    requires
        forall|i: int| 0 <= i < c.len() ==> #[trigger] c[i] != sep,
    ensures
        split(rest, sep).len() >= 1,
        split(c + rest, sep) == seq![c + split(rest, sep)[0]] + split(rest, sep).skip(1),
    decreases rest.len(),
{
    lemma_split_shape(rest, sep);
    if rest.len() == 0 {
        lemma_split_whole(c, sep);
        assert(c + rest =~= c);
        assert(c + Seq::<u8>::empty() =~= c);
        assert(seq![c + split(rest, sep)[0]] + split(rest, sep).skip(1) =~= seq![c]);
    } else {
        let init = rest.drop_last();
        let x = rest.last();
        lemma_split_chunk(c, init, sep);
        lemma_split_shape(init, sep);
        assert((c + rest).drop_last() =~= c + init);
        assert((c + rest).last() == x);
        let inner = split(init, sep);
        let outer = split(c + init, sep);
        assert(outer == seq![c + inner[0]] + inner.skip(1));
        if x == sep {
            assert(outer.push(Seq::<u8>::empty()) =~= seq![c + inner.push(Seq::<u8>::empty())[0]]
                + inner.push(Seq::<u8>::empty()).skip(1));
        } else {
            let now = inner.drop_last().push(inner.last().push(x));
            assert(split(rest, sep) == now);
            if inner.len() == 1 {
                assert((c + inner[0]).push(x) =~= c + inner[0].push(x));
                assert(outer.drop_last().push(outer.last().push(x)) =~= seq![c + now[0]]
                    + now.skip(1));
            } else {
                assert(outer.last() == inner.last());
                assert(outer.drop_last().push(outer.last().push(x)) =~= seq![c + now[0]]
                    + now.skip(1));
            }
        }
    }
}

/// A separator in front of a text makes an empty field before its fields.
pub proof fn lemma_split_separator(rest: Seq<u8>, sep: u8)
    ensures
        split(seq![sep] + rest, sep) == seq![Seq::<u8>::empty()] + split(rest, sep),
    decreases rest.len(),
{
    let one = seq![sep];
    if rest.len() == 0 {
        assert(one + rest =~= one);
        assert(one.drop_last() =~= Seq::<u8>::empty());
        assert(split(Seq::<u8>::empty(), sep) =~= seq![Seq::<u8>::empty()]);
        assert(split(one, sep) == split(one.drop_last(), sep).push(Seq::<u8>::empty()));
        assert(split(one, sep) =~= seq![Seq::<u8>::empty(), Seq::<u8>::empty()]);
        assert(seq![Seq::<u8>::empty()] + split(rest, sep) =~= seq![
            Seq::<u8>::empty(),
            Seq::<u8>::empty(),
        ]);
    } else {
        let init = rest.drop_last();
        let x = rest.last();
        lemma_split_separator(init, sep);
        lemma_split_shape(init, sep);
        assert((one + rest).drop_last() =~= one + init);
        assert((one + rest).last() == x);
        let inner = split(init, sep);
        let outer = split(one + init, sep);
        if x == sep {
            assert(outer.push(Seq::<u8>::empty()) =~= seq![Seq::<u8>::empty()] + inner.push(
                Seq::<u8>::empty(),
            ));
        } else {
            assert(outer.last() == inner.last());
            assert(outer.drop_last().push(outer.last().push(x)) =~= seq![Seq::<u8>::empty()]
                + inner.drop_last().push(inner.last().push(x)));
        }
    }
}

/// Every field of a text that is cut at an ASCII separator is a text
/// itself: no cut goes through the bytes of a character.
pub proof fn lemma_fields_are_text(s: Seq<u8>, sep: u8)
    requires
        valid_utf8(s),
        sep < 0x80,
    ensures
        forall|i: int| 0 <= i < split(s, sep).len() ==> valid_utf8(#[trigger] split(s, sep)[i]),
    decreases s.len(),
{
    if s.len() == 0 {
        assert(valid_utf8(Seq::<u8>::empty()));
    } else {
        let width = length_of_first_scalar(s);
        let first = s.subrange(0, width);
        let rest = pop_first_scalar(s);
        assert(s =~= first + rest);
        lemma_fields_are_text(rest, sep);
        lemma_split_shape(rest, sep);
        assert(is_char_boundary(s, width)) by {
            reveal_with_fuel(is_char_boundary, 2);
        }
        valid_utf8_split(s, width);
        if width == 1 && s[0] == sep {
            assert(first =~= seq![sep]);
            lemma_split_separator(rest, sep);
            assert(valid_utf8(Seq::<u8>::empty()));
        } else {
            assert forall|i: int| 0 <= i < first.len() implies #[trigger] first[i] != sep by {
                assert(first[i] == s[i]);
            }
            lemma_split_chunk(first, rest, sep);
            valid_utf8_concat(first, split(rest, sep)[0]);
            assert forall|i: int| 0 <= i < split(s, sep).len() implies valid_utf8(
                #[trigger] split(s, sep)[i],
            ) by {
                if i > 0 {
                    assert(split(s, sep)[i] == split(rest, sep)[i]);
                }
            }
        }
    }
}

/// Whether a character is white space: the controls from tab to carriage
/// return, the space, and the spaces and separators beyond ASCII that
/// Unicode gives the property `White_Space`.
pub open spec fn is_white_space(c: char) -> bool {
    let u = c as u32;
    ||| 0x09 <= u <= 0x0d
    ||| u == 0x20
    ||| u == 0x85
    ||| u == 0xa0
    ||| u == 0x1680
    ||| 0x2000 <= u <= 0x200a
    ||| u == 0x2028
    ||| u == 0x2029
    ||| u == 0x202f
    ||| u == 0x205f
    ||| u == 0x3000
}

/// A text without the white space it begins with.
pub open spec fn trim_start(s: Seq<char>) -> Seq<char>
    decreases s.len(),
{
    if s.len() > 0 && is_white_space(s[0]) {
        trim_start(s.skip(1))
    } else {
        s
    }
}

/// A text without the white space it ends with.
pub open spec fn trim_end(s: Seq<char>) -> Seq<char>
    decreases s.len(),
{
    if s.len() > 0 && is_white_space(s.last()) {
        trim_end(s.drop_last())
    } else {
        s
    }
}

/// A text without the white space around it.
pub open spec fn trimmed(s: Seq<char>) -> Seq<char> {
    trim_end(trim_start(s))
}

/// Whether a character is white space.
pub fn white_space(c: char) -> (r: bool)
    ensures
        r == is_white_space(c),
{
    let u: u32 = c as u32;
    (0x09 <= u && u <= 0x0d) || u == 0x20 || u == 0x85 || u == 0xa0 || u == 0x1680 || (0x2000 <= u
        && u <= 0x200a) || u == 0x2028 || u == 0x2029 || u == 0x202f || u == 0x205f || u == 0x3000
}

/// Takes the white space off both ends of a text.
pub fn trim(s: &str) -> (r: &str)
    ensures
        r@ == trimmed(s@),
{
    let n: usize = s.unicode_len();
    let mut start: usize = 0;
    proof {
        assert(s@.skip(0) == s@);
    }
    while start < n && white_space(s.get_char(start))
        invariant
            0 <= start <= n,
            n == s@.len(),
            trim_start(s@) == trim_start(s@.skip(start as int)),
        decreases n - start,
    {
        proof {
            assert(s@.skip(start as int)[0] == s@[start as int]);
            assert(s@.skip(start as int).skip(1) == s@.skip(start + 1));
        }
        start = start + 1;
    }
    let ghost rest = s@.skip(start as int);
    proof {
        if start < n {
            assert(rest[0] == s@[start as int]);
        }
        assert(trim_start(s@) == rest);
        assert(rest == s@.subrange(start as int, n as int));
    }
    let mut end: usize = n;
    while end > start && white_space(s.get_char(end - 1))
        invariant
            start <= end <= n,
            n == s@.len(),
            trim_end(rest) == trim_end(s@.subrange(start as int, end as int)),
        decreases end - start,
    {
        proof {
            let part = s@.subrange(start as int, end as int);
            assert(part.last() == s@[end - 1]);
            assert(part.drop_last() == s@.subrange(start as int, end - 1));
        }
        end = end - 1;
    }
    proof {
        let part = s@.subrange(start as int, end as int);
        if end > start {
            assert(part.last() == s@[end - 1]);
        }
        assert(trim_end(rest) == part);
    }
    s.substring_char(start, end)
}

/// A text that neither begins nor ends with white space is left as it is.
pub proof fn lemma_trimmed_whole(s: Seq<char>)
    requires
        s.len() == 0 || (!is_white_space(s[0]) && !is_white_space(s.last())),
    ensures
        trimmed(s) == s,
{
}

} // verus!
