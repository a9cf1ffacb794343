//! JSON body construction for request payloads.
//!
//! A request body is a flat JSON object: a sequence of fields whose values are
//! strings or unsigned numbers. The ghost types [`FieldModel`] and
//! [`ValModel`] describe such an object mathematically; every contract about a
//! transmitted body is stated over them, and [`json_object`] is proved to
//! render exactly the modelled text.

use vstd::prelude::*;

use crate::text::{dec_of, digit_char, push_u64};

verus! {

/// The character for a single lowercase hexadecimal digit.
pub open spec fn hex_char(d: nat) -> char {
    if d < 10 {
        digit_char(d)
    } else if d == 10 {
        'a'
    } else if d == 11 {
        'b'
    } else if d == 12 {
        'c'
    } else if d == 13 {
        'd'
    } else if d == 14 {
        'e'
    } else {
        'f'
    }
}

/// The JSON escape of one character inside a string literal: quote and
/// backslash are escaped, common control characters get their short escapes,
/// the remaining control characters a `\u00..` escape, and every other
/// character stands for itself.
pub open spec fn escaped_char(c: char) -> Seq<char> {
    if c == '"' {
        seq!['\\', '"']
    } else if c == '\\' {
        seq!['\\', '\\']
    } else if c == '\n' {
        seq!['\\', 'n']
    } else if c == '\r' {
        seq!['\\', 'r']
    } else if c == '\t' {
        seq!['\\', 't']
    } else if (c as u32) < 32 {
        seq!['\\', 'u', '0', '0', hex_char((c as u32) as nat / 16), hex_char((c as u32) as nat % 16)]
    } else {
        seq![c]
    }
}

/// The JSON escape of a whole string body.
pub open spec fn escaped(s: Seq<char>) -> Seq<char>
    decreases s.len(),
{
    if s.len() == 0 {
        Seq::empty()
    } else {
        escaped(s.drop_last()) + escaped_char(s.last())
    }
}

/// A JSON string literal: the escaped body between double quotes.
pub open spec fn quoted(s: Seq<char>) -> Seq<char> {
    seq!['"'] + escaped(s) + seq!['"']
}

/// Mathematical model of a JSON field value.
pub enum ValModel {
    Str(Seq<char>),
    Num(nat),
}

/// Mathematical model of one field of a JSON object.
pub struct FieldModel {
    pub key: Seq<char>,
    pub val: ValModel,
}

/// The rendered text of a field value.
pub open spec fn rendered_val(v: ValModel) -> Seq<char> {
    match v {
        ValModel::Str(s) => quoted(s),
        ValModel::Num(n) => dec_of(n),
    }
}

/// The rendered text of one field: quoted key, colon, value.
pub open spec fn rendered_field(f: FieldModel) -> Seq<char> {
    quoted(f.key) + seq![':'] + rendered_val(f.val)
}

/// The rendered text of a field list, comma separated.
pub open spec fn rendered_fields(fs: Seq<FieldModel>) -> Seq<char>
    decreases fs.len(),
{
    if fs.len() == 0 {
        Seq::empty()
    } else if fs.len() == 1 {
        rendered_field(fs[0])
    } else {
        rendered_fields(fs.drop_last()) + seq![','] + rendered_field(fs.last())
    }
}

/// The rendered text of a whole JSON object.
pub open spec fn rendered_object(fs: Seq<FieldModel>) -> Seq<char> {
    seq!['{'] + rendered_fields(fs) + seq!['}']
}

/// A field value as carried in a request under construction.
pub enum JsonValue {
    Str(String),
    Num(u64),
}

impl JsonValue {
    /// The model of this value.
    pub open spec fn model(self) -> ValModel {
        match self {
            JsonValue::Str(s) => ValModel::Str(s@),
            JsonValue::Num(n) => ValModel::Num(n as nat),
        }
    }
}

/// One field of a request body under construction.
pub struct JsonField {
    pub key: String,
    pub value: JsonValue,
}

impl JsonField {
    /// The model of this field.
    pub open spec fn model(self) -> FieldModel {
        FieldModel { key: self.key@, val: self.value.model() }
    }
}

/// The models of a field list.
pub open spec fn field_models(fs: Seq<JsonField>) -> Seq<FieldModel> {
    fs.map_values(|f: JsonField| f.model())
}

/// The fields for an optional string value: one field when the value is
/// supplied, none when it is absent.
pub open spec fn opt_str_field(key: Seq<char>, v: Option<String>) -> Seq<FieldModel> {
    match v {
        Some(s) => seq![FieldModel { key, val: ValModel::Str(s@) }],
        None => Seq::empty(),
    }
}

/// The fields for an optional string value given as a character sequence:
/// one field when the value is supplied, none when it is absent.
pub open spec fn opt_view_field(key: Seq<char>, v: Option<Seq<char>>) -> Seq<FieldModel> {
    match v {
        Some(s) => seq![FieldModel { key, val: ValModel::Str(s) }],
        None => Seq::empty(),
    }
}

/// Some field of the list carries this key.
pub open spec fn has_field(fs: Seq<FieldModel>, key: Seq<char>) -> bool {
    exists|i: int| 0 <= i < fs.len() && fs[i].key == key
}

/// Some field of the list carries this key with this value.
pub open spec fn has_field_val(fs: Seq<FieldModel>, key: Seq<char>, val: ValModel) -> bool {
    exists|i: int| 0 <= i < fs.len() && fs[i].key == key && fs[i].val == val
}

/// A key occurs with a value in a concatenation exactly when it so occurs in
/// one of the halves.
pub proof fn lemma_has_field_val_concat(
    a: Seq<FieldModel>,
    b: Seq<FieldModel>,
    key: Seq<char>,
    v: ValModel,
)
    ensures
        has_field_val(a + b, key, v) == (has_field_val(a, key, v) || has_field_val(b, key, v)),
{
    if has_field_val(a, key, v) {
        let i = choose|i: int| 0 <= i < a.len() && a[i].key == key && a[i].val == v;
        assert((a + b)[i].key == key && (a + b)[i].val == v);
    }
    if has_field_val(b, key, v) {
        let i = choose|i: int| 0 <= i < b.len() && b[i].key == key && b[i].val == v;
        assert((a + b)[a.len() + i].key == key && (a + b)[a.len() + i].val == v);
    }
    if has_field_val(a + b, key, v) {
        let i = choose|i: int|
            0 <= i < (a + b).len() && (a + b)[i].key == key && (a + b)[i].val == v;
        if i < a.len() {
            assert(a[i].key == key && a[i].val == v);
        } else {
            assert(b[i - a.len()].key == key && b[i - a.len()].val == v);
        }
    }
}

/// A key occurs in a concatenation exactly when it occurs in one of the
/// halves.
pub proof fn lemma_has_field_concat(a: Seq<FieldModel>, b: Seq<FieldModel>, key: Seq<char>)
    ensures
        has_field(a + b, key) == (has_field(a, key) || has_field(b, key)),
{
    if has_field(a, key) {
        let i = choose|i: int| 0 <= i < a.len() && a[i].key == key;
        assert((a + b)[i].key == key);
    }
    if has_field(b, key) {
        let i = choose|i: int| 0 <= i < b.len() && b[i].key == key;
        assert((a + b)[a.len() + i].key == key);
    }
    if has_field(a + b, key) {
        let i = choose|i: int| 0 <= i < (a + b).len() && (a + b)[i].key == key;
        if i < a.len() {
            assert(a[i].key == key);
        } else {
            assert(b[i - a.len()].key == key);
        }
    }
}

fn push_escaped_char(out: &mut String, c: char)
    ensures
        final(out)@ == old(out)@ + escaped_char(c),
{
    if c == '"' {
        out.push('\\');
        out.push('"');
    } else if c == '\\' {
        out.push('\\');
        out.push('\\');
    } else if c == '\n' {
        out.push('\\');
        out.push('n');
    } else if c == '\r' {
        out.push('\\');
        out.push('r');
    } else if c == '\t' {
        out.push('\\');
        out.push('t');
    } else if (c as u32) < 32 {
        let u = c as u32;
        out.push('\\');
        out.push('u');
        out.push('0');
        out.push('0');
        out.push(hex_to_char((u / 16) as u8));
        out.push(hex_to_char((u % 16) as u8));
    } else {
        out.push(c);
    }
    proof {
        assert(final(out)@ =~= old(out)@ + escaped_char(c));
    }
}

fn hex_to_char(d: u8) -> (c: char)
    requires
        d < 16,
    ensures
        c == hex_char(d as nat),
{
    if d == 0 {
        '0'
    } else if d == 1 {
        '1'
    } else if d == 2 {
        '2'
    } else if d == 3 {
        '3'
    } else if d == 4 {
        '4'
    } else if d == 5 {
        '5'
    } else if d == 6 {
        '6'
    } else if d == 7 {
        '7'
    } else if d == 8 {
        '8'
    } else if d == 9 {
        '9'
    } else if d == 10 {
        'a'
    } else if d == 11 {
        'b'
    } else if d == 12 {
        'c'
    } else if d == 13 {
        'd'
    } else if d == 14 {
        'e'
    } else {
        'f'
    }
}

/// Appends the JSON escape of `s` to `out`.
fn push_escaped(out: &mut String, s: &str)
    ensures
        final(out)@ == old(out)@ + escaped(s@),
{
    let len = s.unicode_len();
    let mut i: usize = 0;
    while i < len
        invariant
            len as nat == s@.len(),
            i <= len,
            out@ == old(out)@ + escaped(s@.take(i as int)),
        decreases len - i,
    {
        let c = s.get_char(i);
        push_escaped_char(out, c);
        proof {
            assert(s@.take(i + 1).drop_last() =~= s@.take(i as int));
            assert(s@.take(i + 1).last() == s@[i as int]);
            assert(out@ =~= old(out)@ + escaped(s@.take(i + 1)));
        }
        i = i + 1;
    }
    proof {
        assert(s@.take(s@.len() as int) =~= s@);
    }
}

/// Appends the JSON string literal for `s` to `out`.
fn push_quoted(out: &mut String, s: &str)
    ensures
        final(out)@ == old(out)@ + quoted(s@),
{
    out.push('"');
    push_escaped(out, s);
    out.push('"');
    proof {
        assert(final(out)@ =~= old(out)@ + quoted(s@));
    }
}

fn push_value(out: &mut String, v: &JsonValue)
    ensures
        final(out)@ == old(out)@ + rendered_val(v.model()),
{
    match v {
        JsonValue::Str(s) => push_quoted(out, s.as_str()),
        JsonValue::Num(n) => push_u64(out, *n),
    }
}

/// Renders the fields as one flat JSON object, in order.
pub fn json_object(fields: &Vec<JsonField>) -> (r: String)
    ensures
        r@ == rendered_object(field_models(fields@)),
{
    let mut out = String::new();
    out.push('{');
    let mut i: usize = 0;
    while i < fields.len()
        invariant
            i <= fields.len(),
            out@ == seq!['{'] + rendered_fields(field_models(fields@).take(i as int)),
        decreases fields.len() - i,
    {
        if i > 0 {
            out.push(',');
        }
        push_quoted(&mut out, fields[i].key.as_str());
        out.push(':');
        push_value(&mut out, &fields[i].value);
        proof {
            let models = field_models(fields@);
            assert(models.take(i + 1).drop_last() =~= models.take(i as int));
            assert(models.take(i + 1).last() == models[i as int]);
            assert(models[i as int] == fields@[i as int].model());
            assert(out@ =~= seq!['{'] + rendered_fields(models.take(i + 1)));
        }
        i = i + 1;
    }
    out.push('}');
    proof {
        assert(field_models(fields@).take(fields@.len() as int) =~= field_models(fields@));
        assert(out@ =~= rendered_object(field_models(fields@)));
    }
    out
}

} // verus!
