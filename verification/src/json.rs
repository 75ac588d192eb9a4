use vstd::prelude::*;

verus! {

/// `serde_json::Error`, the error that serialization may return.
#[verifier::external_type_specification]
#[verifier::external_body]
pub struct ExJsonError(serde_json::Error);

/// `serde_json::Value`, a JSON document held as a tree.
#[verifier::external_type_specification]
#[verifier::external_body]
pub struct ExJsonValue(serde_json::Value);

/// `"` in JSON text.
pub const QUOTE: u8 = 34;

/// `\` in JSON text.
pub const BACKSLASH: u8 = 92;

/// The lowercase hexadecimal digit of `d` (below 16).
pub open spec fn hex_digit(d: u8) -> u8 {
    if d < 10 {
        (48 + d) as u8
    } else {
        (87 + d) as u8
    }
}

/// How `serde_json` writes the byte `b` inside a string literal: a quote, a
/// backslash and the control characters 8, 9, 10, 12 and 13 as a backslash
/// and a letter, the other bytes below 32 as `\u00` and two lowercase hex
/// digits, every other byte as itself.
pub open spec fn json_escape_byte(b: u8) -> Seq<u8> {
    if b == QUOTE {
        seq![BACKSLASH, QUOTE]
    } else if b == BACKSLASH {
        seq![BACKSLASH, BACKSLASH]
    } else if b == 8 {
        seq![BACKSLASH, 98u8]
    } else if b == 9 {
        seq![BACKSLASH, 116u8]
    } else if b == 10 {
        seq![BACKSLASH, 110u8]
    } else if b == 12 {
        seq![BACKSLASH, 102u8]
    } else if b == 13 {
        seq![BACKSLASH, 114u8]
    } else if b < 32 {
        seq![BACKSLASH, 117u8, 48u8, 48u8, hex_digit(b / 16), hex_digit(b % 16)]
    } else {
        seq![b]
    }
}

/// Each byte of `bytes` as `json_escape_byte` writes it, in order.
pub open spec fn json_escaped_bytes(bytes: Seq<u8>) -> Seq<u8>
    decreases bytes.len(),
{
    if bytes.len() == 0 {
        Seq::empty()
    } else {
        json_escaped_bytes(bytes.drop_last()) + json_escape_byte(bytes.last())
    }
}

/// The JSON string literal that `serde_json` writes for the text `s`: a
/// quote, the escaped UTF-8 bytes of the text, a quote.
pub open spec fn json_string_encoding(s: Seq<char>) -> Seq<u8> {
    seq![QUOTE] + json_escaped_bytes(vstd::utf8::encode_utf8(s)) + seq![QUOTE]
}

/// The compact JSON text that `serde_json` writes for the document `v`.
pub uninterp spec fn json_value_text(v: serde_json::Value) -> Seq<u8>;

/// Calls `serde_json::to_vec` on a string slice. Trusted: writing a string
/// into a vector does not fail, and the bytes are the string literal that
/// `json_string_encoding` states: the UTF-8 bytes of the text between
/// quotes, escaped as `json_escape_byte` says.
#[verifier::external_body]
fn encode_json_string(s: &str) -> (r: Result<Vec<u8>, serde_json::Error>)
    ensures
        r is Ok,
        r matches Ok(b) ==> b@ == json_string_encoding(s@),
{
    serde_json::to_vec(s)
}

/// Calls `serde_json::to_vec` on a JSON document. Trusted: writing a
/// document into a vector does not fail, and the bytes are those that
/// `json_value_text` names for the document; how a document is written is
/// not stated.
#[verifier::external_body]
fn encode_json_value(v: &serde_json::Value) -> (r: Result<Vec<u8>, serde_json::Error>)
    ensures
        r is Ok,
        r matches Ok(b) ==> b@ == json_value_text(*v),
{
    serde_json::to_vec(v)
}

/// The JSON string literal of the text `s`.
pub fn json_string(s: &str) -> (r: Vec<u8>)
    ensures
        r@ == json_string_encoding(s@),
{
    match encode_json_string(s) {
        Ok(b) => b,
        Err(_) => unreached(),
    }
}

/// The compact JSON text of the document `v`.
pub fn json_value(v: &serde_json::Value) -> (r: Vec<u8>)
    ensures
        r@ == json_value_text(*v),
{
    match encode_json_value(v) {
        Ok(b) => b,
        Err(_) => unreached(),
    }
}

/// `[` in JSON text.
pub const OPEN_BRACKET: u8 = 91;

/// `]` in JSON text.
pub const CLOSE_BRACKET: u8 = 93;

/// `{` in JSON text.
pub const OPEN_BRACE: u8 = 123;

/// `}` in JSON text.
pub const CLOSE_BRACE: u8 = 125;

/// `,` in JSON text.
pub const COMMA: u8 = 44;

/// `:` in JSON text.
pub const COLON: u8 = 58;

/// A member value of the registration body.
pub enum BodyValue {
    /// A JSON string.
    Str(String),
    /// A JSON array of strings.
    StrList(Vec<String>),
    /// JSON text already written.
    Raw(Vec<u8>),
}

/// What a member value of the registration body holds.
pub enum BodyValueView {
    Str(Seq<char>),
    StrList(Seq<Seq<char>>),
    Raw(Seq<u8>),
}

impl View for BodyValue {
    type V = BodyValueView;

    open spec fn view(&self) -> BodyValueView {
        match self {
            BodyValue::Str(s) => BodyValueView::Str(s@),
            BodyValue::StrList(l) => BodyValueView::StrList(l@.map_values(|s: String| s@)),
            BodyValue::Raw(b) => BodyValueView::Raw(b@),
        }
    }
}

/// The members of a JSON object, each a name and a value.
pub open spec fn members_view(v: Seq<(String, BodyValue)>) -> Seq<(Seq<char>, BodyValueView)> {
    v.map_values(|m: (String, BodyValue)| (m.0@, m.1@))
}

/// `pieces` written one after another with a comma between each two.
pub open spec fn comma_join(pieces: Seq<Seq<u8>>) -> Seq<u8>
    decreases pieces.len(),
{
    if pieces.len() == 0 {
        Seq::empty()
    } else if pieces.len() == 1 {
        pieces[0]
    } else {
        comma_join(pieces.drop_last()) + seq![COMMA] + pieces.last()
    }
}

/// The JSON string literal of each text of `l`.
pub open spec fn encoded_strings(l: Seq<Seq<char>>) -> Seq<Seq<u8>> {
    l.map_values(|s: Seq<char>| json_string_encoding(s))
}

/// The JSON text of a member value: a string literal, an array of string
/// literals, or the text it already holds.
pub open spec fn value_bytes(v: BodyValueView) -> Seq<u8> {
    match v {
        BodyValueView::Str(s) => json_string_encoding(s),
        BodyValueView::StrList(l) => seq![OPEN_BRACKET] + comma_join(encoded_strings(l)) + seq![CLOSE_BRACKET],
        BodyValueView::Raw(b) => b,
    }
}

/// The JSON text of a member: the name's string literal, a colon, the value.
pub open spec fn member_bytes(m: (Seq<char>, BodyValueView)) -> Seq<u8> {
    json_string_encoding(m.0) + seq![COLON] + value_bytes(m.1)
}

/// The compact JSON text of an object with these members, in this order.
pub open spec fn object_bytes(members: Seq<(Seq<char>, BodyValueView)>) -> Seq<u8> {
    seq![OPEN_BRACE] + comma_join(members.map_values(|m: (Seq<char>, BodyValueView)| member_bytes(m)))
        + seq![CLOSE_BRACE]
}

proof fn lemma_comma_join_push(pieces: Seq<Seq<u8>>, x: Seq<u8>)
    ensures
        comma_join(pieces.push(x)) == if pieces.len() == 0 {
            x
        } else {
            comma_join(pieces) + seq![COMMA] + x
        },
{
    assert(pieces.push(x).drop_last() =~= pieces);
    if pieces.len() == 0 {
        assert(pieces.push(x)[0] == x);
    }
}

/// A string member value is written as the string literal of the whole
/// text, as `serde_json` writes it, and JSON text already written is kept
/// byte for byte.
pub proof fn law_string_value_is_its_literal(s: Seq<char>, raw: Seq<u8>)
    ensures
        value_bytes(BodyValueView::Str(s)) == json_string_encoding(s),
        value_bytes(BodyValueView::Raw(raw)) == raw,
{
}

/// An array of strings is written as `[`, the string literals separated by
/// commas, and `]`: the empty list as `[]`, and one more text adds a comma
/// (unless it is the first) and its literal before the closing bracket.
pub proof fn law_string_list_value(l: Seq<Seq<char>>, x: Seq<char>)
    ensures
        value_bytes(BodyValueView::StrList(Seq::empty())) == seq![OPEN_BRACKET, CLOSE_BRACKET],
        value_bytes(BodyValueView::StrList(l.push(x))) == (if l.len() == 0 {
            seq![OPEN_BRACKET]
        } else {
            value_bytes(BodyValueView::StrList(l)).drop_last() + seq![COMMA]
        }) + json_string_encoding(x) + seq![CLOSE_BRACKET],
{
    assert(encoded_strings(Seq::<Seq<char>>::empty()) =~= Seq::<Seq<u8>>::empty());
    assert(seq![OPEN_BRACKET] + comma_join(Seq::<Seq<u8>>::empty()) + seq![CLOSE_BRACKET]
        =~= seq![OPEN_BRACKET, CLOSE_BRACKET]);
    let e = encoded_strings(l);
    assert(encoded_strings(l.push(x)) =~= e.push(json_string_encoding(x)));
    lemma_comma_join_push(e, json_string_encoding(x));
    let v = seq![OPEN_BRACKET] + comma_join(e) + seq![CLOSE_BRACKET];
    assert(v.drop_last() =~= seq![OPEN_BRACKET] + comma_join(e));
    if l.len() == 0 {
        assert(seq![OPEN_BRACKET] + json_string_encoding(x) + seq![CLOSE_BRACKET] =~= seq![
            OPEN_BRACKET,
        ] + json_string_encoding(x) + seq![CLOSE_BRACKET]);
    } else {
        assert(seq![OPEN_BRACKET] + (comma_join(e) + seq![COMMA] + json_string_encoding(x))
            + seq![CLOSE_BRACKET] =~= v.drop_last() + seq![COMMA] + json_string_encoding(x) + seq![
            CLOSE_BRACKET,
        ]);
    }
}

/// An object is written as `{`, the members separated by commas, and `}`:
/// no members as `{}`, and one more member adds a comma (unless it is the
/// first), the literal of its name, a colon and its value before the closing
/// brace.
pub proof fn law_object_members(ms: Seq<(Seq<char>, BodyValueView)>, m: (Seq<char>, BodyValueView))
    ensures
        object_bytes(Seq::empty()) == seq![OPEN_BRACE, CLOSE_BRACE],
        object_bytes(ms.push(m)) == (if ms.len() == 0 {
            seq![OPEN_BRACE]
        } else {
            object_bytes(ms).drop_last() + seq![COMMA]
        }) + json_string_encoding(m.0) + seq![COLON] + value_bytes(m.1) + seq![CLOSE_BRACE],
{
    let f = |x: (Seq<char>, BodyValueView)| member_bytes(x);
    assert(Seq::<(Seq<char>, BodyValueView)>::empty().map_values(f) =~= Seq::<Seq<u8>>::empty());
    assert(seq![OPEN_BRACE] + comma_join(Seq::<Seq<u8>>::empty()) + seq![CLOSE_BRACE] =~= seq![
        OPEN_BRACE,
        CLOSE_BRACE,
    ]);
    let e = ms.map_values(f);
    assert(ms.push(m).map_values(f) =~= e.push(member_bytes(m)));
    lemma_comma_join_push(e, member_bytes(m));
    let v = seq![OPEN_BRACE] + comma_join(e) + seq![CLOSE_BRACE];
    assert(v.drop_last() =~= seq![OPEN_BRACE] + comma_join(e));
    if ms.len() == 0 {
        assert(seq![OPEN_BRACE] + member_bytes(m) + seq![CLOSE_BRACE] =~= seq![OPEN_BRACE]
            + json_string_encoding(m.0) + seq![COLON] + value_bytes(m.1) + seq![CLOSE_BRACE]);
    } else {
        assert(seq![OPEN_BRACE] + (comma_join(e) + seq![COMMA] + member_bytes(m)) + seq![
            CLOSE_BRACE,
        ] =~= v.drop_last() + seq![COMMA] + json_string_encoding(m.0) + seq![COLON] + value_bytes(
            m.1,
        ) + seq![CLOSE_BRACE]);
    }
}

/// Whether `serde_json` writes the byte `b` as itself inside a string: it is
/// no control character, no quote and no backslash.
pub open spec fn byte_written_as_is(b: u8) -> bool {
    b >= 32 && b != QUOTE && b != BACKSLASH
}

/// A text with nothing to escape is written as its UTF-8 bytes between
/// quotes: every byte is kept, those beyond ASCII too.
pub proof fn law_plain_text_kept_whole(s: Seq<char>)
    requires
        forall|i: int|
            0 <= i < vstd::utf8::encode_utf8(s).len() ==> byte_written_as_is(
                #[trigger] vstd::utf8::encode_utf8(s)[i],
            ),
    ensures
        json_string_encoding(s) == seq![QUOTE] + vstd::utf8::encode_utf8(s) + seq![QUOTE],
{
    lemma_escaped_plain(vstd::utf8::encode_utf8(s));
}

proof fn lemma_escaped_plain(bytes: Seq<u8>)
    requires
        forall|i: int| 0 <= i < bytes.len() ==> byte_written_as_is(#[trigger] bytes[i]),
    ensures
        json_escaped_bytes(bytes) == bytes,
    decreases bytes.len(),
{
    if bytes.len() > 0 {
        let init = bytes.drop_last();
        assert forall|i: int| 0 <= i < init.len() implies byte_written_as_is(#[trigger] init[i]) by {
            assert(init[i] == bytes[i]);
        }
        lemma_escaped_plain(init);
        assert(byte_written_as_is(bytes[bytes.len() - 1]));
        assert(init.push(bytes.last()) =~= bytes);
    } else {
        assert(bytes =~= Seq::<u8>::empty());
    }
}

/// Appends the bytes of `b` to `out`.
fn append_bytes(out: &mut Vec<u8>, b: &[u8])
    ensures
        final(out)@ == old(out)@ + b@,
{
    let n = b.len();
    let mut i: usize = 0;
    while i < n
        invariant
            n == b@.len(),
            i <= n,
            out@ == old(out)@ + b@.take(i as int),
        decreases n - i,
    {
        out.push(b[i]);
        assert(b@.take(i + 1) =~= b@.take(i as int).push(b@[i as int]));
        assert(out@ =~= old(out)@ + b@.take(i + 1));
        i = i + 1;
    }
    assert(b@.take(n as int) =~= b@);
}

/// Writes `items` as a JSON array of strings.
pub fn encode_string_array(items: &Vec<String>) -> (r: Vec<u8>)
    ensures
        r@ == value_bytes(BodyValueView::StrList(items@.map_values(|s: String| s@))),
{
    let ghost vs = items@.map_values(|s: String| s@);
    let mut out: Vec<u8> = Vec::new();
    out.push(OPEN_BRACKET);
    let n = items.len();
    let mut i: usize = 0;
    assert(encoded_strings(vs.take(0)) =~= Seq::<Seq<u8>>::empty());
    assert(out@ =~= seq![OPEN_BRACKET] + comma_join(encoded_strings(vs.take(0))));
    while i < n
        invariant
            n == items@.len(),
            vs == items@.map_values(|s: String| s@),
            i <= n,
            out@ == seq![OPEN_BRACKET] + comma_join(encoded_strings(vs.take(i as int))),
        decreases n - i,
    {
        let bytes = json_string(items[i].as_str());
        let ghost before = encoded_strings(vs.take(i as int));
        assert(encoded_strings(vs.take(i + 1)) =~= before.push(bytes@));
        proof {
            lemma_comma_join_push(before, bytes@);
        }
        if i > 0 {
            out.push(COMMA);
        }
        append_bytes(&mut out, bytes.as_slice());
        assert(out@ =~= seq![OPEN_BRACKET] + comma_join(encoded_strings(vs.take(i + 1))));
        i = i + 1;
    }
    assert(vs.take(n as int) =~= vs);
    out.push(CLOSE_BRACKET);
    out
}

/// Writes a member value as JSON text.
fn encode_value(v: &BodyValue) -> (r: Vec<u8>)
    ensures
        r@ == value_bytes(v@),
{
    match v {
        BodyValue::Str(s) => json_string(s.as_str()),
        BodyValue::StrList(l) => encode_string_array(l),
        BodyValue::Raw(b) => {
            let mut out: Vec<u8> = Vec::new();
            append_bytes(&mut out, b.as_slice());
            assert(out@ =~= b@);
            out
        },
    }
}

/// Writes an object with these members, in this order, as compact JSON
/// text.
pub fn encode_json_object(members: &Vec<(String, BodyValue)>) -> (r: Vec<u8>)
    ensures
        r@ == object_bytes(members_view(members@)),
{
    let ghost ms = members_view(members@);
    let ghost f = |m: (Seq<char>, BodyValueView)| member_bytes(m);
    let mut out: Vec<u8> = Vec::new();
    out.push(OPEN_BRACE);
    let n = members.len();
    let mut i: usize = 0;
    assert(ms.take(0).map_values(f) =~= Seq::<Seq<u8>>::empty());
    assert(out@ =~= seq![OPEN_BRACE] + comma_join(ms.take(0).map_values(f)));
    while i < n
        invariant
            n == members@.len(),
            ms == members_view(members@),
            f == (|m: (Seq<char>, BodyValueView)| member_bytes(m)),
            i <= n,
            out@ == seq![OPEN_BRACE] + comma_join(ms.take(i as int).map_values(f)),
        decreases n - i,
    {
        let name = json_string(members[i].0.as_str());
        let value = encode_value(&members[i].1);
        let ghost before = ms.take(i as int).map_values(f);
        let ghost piece = member_bytes(ms[i as int]);
        assert(ms.take(i + 1).map_values(f) =~= before.push(piece));
        proof {
            lemma_comma_join_push(before, piece);
        }
        if i > 0 {
            out.push(COMMA);
        }
        append_bytes(&mut out, name.as_slice());
        out.push(COLON);
        append_bytes(&mut out, value.as_slice());
        assert(piece =~= name@ + seq![COLON] + value@);
        assert(out@ =~= seq![OPEN_BRACE] + comma_join(ms.take(i + 1).map_values(f)));
        i = i + 1;
    }
    assert(ms.take(n as int) =~= ms);
    out.push(CLOSE_BRACE);
    assert(ms.map_values(f) =~= ms.map_values(|m: (Seq<char>, BodyValueView)| member_bytes(m)));
    out
}

} // verus!
