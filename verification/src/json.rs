//! A JSON document as plain values: the shape that the page and API parsers
//! of this library read.
use vstd::prelude::*;
use vstd::string::StringExecFns;

verus! {

/// A JSON value. Numbers keep the form the parser gave them: a non-negative
/// integer, a negative integer, or a number with a fraction or exponent,
/// held as the text the JSON library prints for it (its value is not
/// modelled). Object members keep the order in which the document's map
/// yields them, each name once.
#[derive(Debug)]
pub enum Json {
    Null,
    Bool(bool),
    PosInt(u64),
    NegInt(i64),
    Float(String),
    Str(String),
    Array(Vec<Json>),
    Object(Vec<(String, Json)>),
}

impl Default for Json {
    /// The null value, as for the JSON library's values.
    fn default() -> (r: Self)
        ensures
            r == Json::Null,
    {
        Json::Null
    }
}

/// The value of the first member named `key`.
pub open spec fn member(entries: Seq<(String, Json)>, key: Seq<char>) -> Option<Json>
    decreases entries.len(),
{
    if entries.len() == 0 {
        None
    } else if entries[0].0@ == key {
        Some(entries[0].1)
    } else {
        member(entries.drop_first(), key)
    }
}

impl Json {
    /// `Value::get(key)`: the member named `key` of an object.
    pub open spec fn lookup(self, key: Seq<char>) -> Option<Json> {
        match self {
            Json::Object(entries) => member(entries@, key),
            _ => None,
        }
    }

    /// `Value::as_str`.
    pub open spec fn str_value(self) -> Option<Seq<char>> {
        match self {
            Json::Str(s) => Some(s@),
            _ => None,
        }
    }

    /// `Value::as_u64`.
    pub open spec fn u64_value(self) -> Option<u64> {
        match self {
            Json::PosInt(n) => Some(n),
            _ => None,
        }
    }

    /// `Value::as_i64`.
    pub open spec fn i64_value(self) -> Option<i64> {
        match self {
            Json::PosInt(n) => if n <= i64::MAX as u64 {
                Some(n as i64)
            } else {
                None
            },
            Json::NegInt(n) => Some(n),
            _ => None,
        }
    }

    pub fn get(&self, key: &str) -> (r: Option<&Json>)
        ensures
            r is Some <==> self.lookup(key@) is Some,
            r matches Some(v) ==> self.lookup(key@) == Some(*v),
    {
        match self {
            Json::Object(entries) => {
                let ghost es = entries@;
                let k = String::from_str(key);
                let mut i: usize = 0;
                assert(es.skip(0) =~= es);
                while i < entries.len()
                    invariant
                        i <= entries.len(),
                        es == entries@,
                        k@ == key@,
                        self.lookup(key@) == member(es, key@),
                        member(es, key@) == member(es.skip(i as int), key@),
                    decreases entries.len() - i,
                {
                    assert(es.skip(i as int)[0] == es[i as int]);
                    assert(es.skip(i as int).drop_first() =~= es.skip(i + 1));
                    if entries[i].0 == k {
                        assert(es[i as int].0@ == key@);
                        assert(member(es.skip(i as int), key@) == Some(es[i as int].1));
                        return Some(&entries[i].1);
                    }
                    i += 1;
                }
                assert(es.skip(i as int) =~= Seq::<(String, Json)>::empty());
                None
            },
            _ => None,
        }
    }

    pub fn as_str(&self) -> (r: Option<&String>)
        ensures
            r is Some <==> self.str_value() is Some,
            r matches Some(s) ==> self.str_value() == Some(s@),
    {
        match self {
            Json::Str(s) => Some(s),
            _ => None,
        }
    }

    pub fn as_u64(&self) -> (r: Option<u64>)
        ensures
            r == self.u64_value(),
    {
        match self {
            Json::PosInt(n) => Some(*n),
            _ => None,
        }
    }

    pub fn as_i64(&self) -> (r: Option<i64>)
        ensures
            r == self.i64_value(),
    {
        match self {
            Json::PosInt(n) => if *n <= i64::MAX as u64 {
                Some(*n as i64)
            } else {
                None
            },
            Json::NegInt(n) => Some(*n),
            _ => None,
        }
    }
}

/// `value.get(key).and_then(Value::as_str)`.
pub open spec fn str_member(value: Json, key: Seq<char>) -> Option<Seq<char>> {
    match value.lookup(key) {
        Some(v) => v.str_value(),
        None => None,
    }
}

/// `value.get(key).and_then(Value::as_u64)`.
pub open spec fn u64_member(value: Json, key: Seq<char>) -> Option<u64> {
    match value.lookup(key) {
        Some(v) => v.u64_value(),
        None => None,
    }
}

/// `value.get(key).and_then(Value::as_i64)`.
pub open spec fn i64_member(value: Json, key: Seq<char>) -> Option<i64> {
    match value.lookup(key) {
        Some(v) => v.i64_value(),
        None => None,
    }
}

impl Json {
    /// A copy of the string member named `key`.
    pub fn get_str(&self, key: &str) -> (r: Option<String>)
        ensures
            crate::outside::opt_view(r) == str_member(*self, key@),
    {
        match self.get(key) {
            Some(v) => match v.as_str() {
                Some(s) => Some(s.clone()),
                None => None,
            },
            None => None,
        }
    }

    /// The unsigned integer member named `key`.
    pub fn get_u64(&self, key: &str) -> (r: Option<u64>)
        ensures
            r == u64_member(*self, key@),
    {
        match self.get(key) {
            Some(v) => v.as_u64(),
            None => None,
        }
    }

    /// The signed integer member named `key`.
    pub fn get_i64(&self, key: &str) -> (r: Option<i64>)
        ensures
            r == i64_member(*self, key@),
    {
        match self.get(key) {
            Some(v) => v.as_i64(),
            None => None,
        }
    }
}

impl Json {
    /// The text of a number as the JSON library prints it (`Number::to_string`).
    pub open spec fn number_text(self) -> Option<Seq<char>> {
        match self {
            Json::PosInt(n) => Some(crate::text::decimal(n as nat)),
            Json::NegInt(n) => Some(crate::text::signed_decimal(n as int)),
            Json::Float(t) => Some(t@),
            _ => None,
        }
    }

    pub fn number_to_string(&self) -> (r: Option<String>)
        ensures
            crate::outside::opt_view(r) == self.number_text(),
    {
        match self {
            Json::PosInt(n) => {
                let mut out: Vec<char> = Vec::new();
                crate::text::push_decimal(&mut out, *n);
                assert(out@ =~= crate::text::decimal(*n as nat));
                Some(crate::text::string_of(&out))
            },
            Json::NegInt(n) => {
                let mut out: Vec<char> = Vec::new();
                crate::text::push_signed_decimal(&mut out, *n);
                assert(out@ =~= crate::text::signed_decimal(*n as int));
                Some(crate::text::string_of(&out))
            },
            Json::Float(t) => Some(t.clone()),
            _ => None,
        }
    }
}

/// `value.get(key)` after an optional step: `None` stays `None`.
pub open spec fn at(value: Option<Json>, key: Seq<char>) -> Option<Json> {
    match value {
        Some(v) => v.lookup(key),
        None => None,
    }
}

impl Json {
    /// `Value::as_array`.
    pub open spec fn array_items(self) -> Option<Seq<Json>> {
        match self {
            Json::Array(items) => Some(items@),
            _ => None,
        }
    }

    /// `Value::as_bool`.
    pub open spec fn bool_value(self) -> Option<bool> {
        match self {
            Json::Bool(b) => Some(b),
            _ => None,
        }
    }

    pub fn as_array(&self) -> (r: Option<&Vec<Json>>)
        ensures
            r is Some <==> self.array_items() is Some,
            r matches Some(v) ==> self.array_items() == Some(v@),
    {
        match self {
            Json::Array(items) => Some(items),
            _ => None,
        }
    }

    pub fn as_bool(&self) -> (r: Option<bool>)
        ensures
            r == self.bool_value(),
    {
        match self {
            Json::Bool(b) => Some(*b),
            _ => None,
        }
    }
}

/// `value.and_then(|v| v.get(key))`.
pub fn get_at<'a>(value: Option<&'a Json>, key: &str) -> (r: Option<&'a Json>)
    ensures
        r is Some <==> at(
            match value {
                Some(v) => Some(*v),
                None => None::<Json>,
            },
            key@,
        ) is Some,
        r matches Some(v) ==> at(
            match value {
                Some(v) => Some(*v),
                None => None::<Json>,
            },
            key@,
        ) == Some(*v),
{
    match value {
        Some(v) => v.get(key),
        None => None,
    }
}


// ---------------------------------------------------------------------------
// Compact text
// ---------------------------------------------------------------------------

/// A lower-case hexadecimal digit.
pub open spec fn hex_lower(d: int) -> char {
    if d < 10 {
        (('0' as int) + d) as char
    } else {
        (('a' as int) + d - 10) as char
    }
}

/// How a character is written inside a JSON string: `"` and `\\` and the
/// control characters escaped (with the short escapes where JSON has them),
/// any other character as it is.
pub open spec fn escaped_char(c: char) -> Seq<char> {
    if c == '"' {
        seq!['\\', '"']
    } else if c == '\\' {
        seq!['\\', '\\']
    } else if c == '\u{8}' {
        seq!['\\', 'b']
    } else if c == '\u{c}' {
        seq!['\\', 'f']
    } else if c == '\n' {
        seq!['\\', 'n']
    } else if c == '\r' {
        seq!['\\', 'r']
    } else if c == '\t' {
        seq!['\\', 't']
    } else if (c as u32) < 0x20 {
        seq!['\\', 'u', '0', '0', hex_lower((c as u32) as int / 16), hex_lower((c as u32) as int % 16)]
    } else {
        seq![c]
    }
}

/// A text written as a JSON string literal.
pub open spec fn quoted(s: Seq<char>) -> Seq<char> {
    seq!['"'] + escaped(s) + seq!['"']
}

pub open spec fn escaped(s: Seq<char>) -> Seq<char>
    decreases s.len(),
{
    if s.len() == 0 {
        Seq::empty()
    } else {
        escaped(s.drop_last()) + escaped_char(s.last())
    }
}

/// The compact JSON text of a value, as the JSON library prints it: no
/// white space, members in their order, numbers as held.
pub open spec fn json_text(v: Json) -> Seq<char>
    decreases v,
{
    match v {
        Json::Null => "null"@,
        Json::Bool(b) => if b {
            "true"@
        } else {
            "false"@
        },
        Json::PosInt(n) => crate::text::decimal(n as nat),
        Json::NegInt(n) => crate::text::signed_decimal(n as int),
        Json::Float(t) => t@,
        Json::Str(s) => quoted(s@),
        Json::Array(items) => seq!['['] + items_text(items@) + seq![']'],
        Json::Object(m) => seq!['{'] + members_text(m@) + seq!['}'],
    }
}

/// Items separated by commas.
pub open spec fn items_text(items: Seq<Json>) -> Seq<char>
    decreases items,
{
    if items.len() == 0 {
        Seq::empty()
    } else if items.len() == 1 {
        json_text(items[0])
    } else {
        items_text(items.drop_last()) + seq![','] + json_text(items.last())
    }
}

/// Members `"name":value` separated by commas.
pub open spec fn members_text(m: Seq<(String, Json)>) -> Seq<char>
    decreases m,
{
    if m.len() == 0 {
        Seq::empty()
    } else if m.len() == 1 {
        quoted(m[0].0@) + seq![':'] + json_text(m[0].1)
    } else {
        members_text(m.drop_last()) + seq![','] + quoted(m.last().0@) + seq![':'] + json_text(m.last().1)
    }
}

fn push_escaped(out: &mut Vec<char>, s: &str)
    ensures
        final(out)@ == old(out)@ + escaped(s@),
{
    let cs = crate::text::chars_of(s);
    let mut i: usize = 0;
    while i < cs.len()
        invariant
            i <= cs.len(),
            cs@ == s@,
            out@ == old(out)@ + escaped(s@.take(i as int)),
        decreases cs.len() - i,
    {
        assert(s@.take(i + 1).drop_last() =~= s@.take(i as int));
        let c = cs[i];
        let ghost before = out@;
        if c == '"' {
            out.push('\\');
            out.push('"');
        } else if c == '\\' {
            out.push('\\');
            out.push('\\');
        } else if c == '\u{8}' {
            out.push('\\');
            out.push('b');
        } else if c == '\u{c}' {
            out.push('\\');
            out.push('f');
        } else if c == '\n' {
            out.push('\\');
            out.push('n');
        } else if c == '\r' {
            out.push('\\');
            out.push('r');
        } else if c == '\t' {
            out.push('\\');
            out.push('t');
        } else if (c as u32) < 0x20 {
            let code = c as u32;
            out.push('\\');
            out.push('u');
            out.push('0');
            out.push('0');
            out.push(hex_lower_exec(code / 16));
            out.push(hex_lower_exec(code % 16));
        } else {
            out.push(c);
        }
        assert(out@ =~= before + escaped_char(c));
        i += 1;
    }
    assert(s@.take(cs.len() as int) =~= s@);
}

fn hex_lower_exec(d: u32) -> (c: char)
    requires
        d < 16,
    ensures
        c == hex_lower(d as int),
{
    if d < 10 {
        ((('0' as u32) + d) as u8) as char
    } else {
        ((('a' as u32) + d - 10) as u8) as char
    }
}

fn push_quoted(out: &mut Vec<char>, s: &str)
    ensures
        final(out)@ == old(out)@ + quoted(s@),
{
    let ghost before = out@;
    out.push('"');
    push_escaped(out, s);
    out.push('"');
    assert(out@ =~= before + quoted(s@));
}

/// Appends the compact JSON text of a value (see `json_text`).
pub fn push_json_text(out: &mut Vec<char>, v: &Json)
    ensures
        final(out)@ == old(out)@ + json_text(*v),
    decreases v,
{
    let ghost before = out@;
    match v {
        Json::Null => {
            crate::text::append_str(out, "null");
        },
        Json::Bool(b) => {
            if *b {
                crate::text::append_str(out, "true");
            } else {
                crate::text::append_str(out, "false");
            }
        },
        Json::PosInt(n) => {
            crate::text::push_decimal(out, *n);
        },
        Json::NegInt(n) => {
            crate::text::push_signed_decimal(out, *n);
        },
        Json::Float(t) => {
            crate::text::append_str(out, t.as_str());
        },
        Json::Str(s) => {
            push_quoted(out, s.as_str());
        },
        Json::Array(items) => {
            out.push('[');
            let ghost start = out@;
            let mut i: usize = 0;
            while i < items.len()
                invariant
                    i <= items.len(),
                    *v == Json::Array(*items),
                    out@ == start + items_text(items@.take(i as int)),
                decreases items.len() - i,
            {
                assert(items@.take(i + 1).drop_last() =~= items@.take(i as int));
                assert(items@.take(i + 1).last() == items@[i as int]);
                proof {
                    assert(decreases_to!(*v => (*v)->Array_0));
                    assert(*items == (*v)->Array_0);
                    assert(decreases_to!(*items => items@));
                    assert(decreases_to!(items@ => items@[i as int]));
                    assert(decreases_to!(*v => items@[i as int]));
                }
                if i > 0 {
                    out.push(',');
                }
                let ghost mid = out@;
                push_json_text(out, &items[i]);
                if i == 0 {
                    assert(items@.take(1) =~= seq![items@[0]]);
                }
                assert(out@ =~= start + items_text(items@.take(i + 1)));
                i += 1;
            }
            assert(items@.take(items.len() as int) =~= items@);
            out.push(']');
            assert(out@ =~= before + json_text(*v));
        },
        Json::Object(m) => {
            out.push('{');
            let ghost start = out@;
            let mut i: usize = 0;
            while i < m.len()
                invariant
                    i <= m.len(),
                    *v == Json::Object(*m),
                    out@ == start + members_text(m@.take(i as int)),
                decreases m.len() - i,
            {
                assert(m@.take(i + 1).drop_last() =~= m@.take(i as int));
                assert(m@.take(i + 1).last() == m@[i as int]);
                proof {
                    assert(decreases_to!(*v => (*v)->Object_0));
                    assert(*m == (*v)->Object_0);
                    assert(decreases_to!(*m => m@));
                    assert(decreases_to!(m@ => m@[i as int]));
                    assert(decreases_to!(m@[i as int] => m@[i as int].1));
                    assert(decreases_to!(*v => m@[i as int].1));
                }
                if i > 0 {
                    out.push(',');
                }
                push_quoted(out, m[i].0.as_str());
                out.push(':');
                push_json_text(out, &m[i].1);
                if i == 0 {
                    assert(m@.take(1) =~= seq![m@[0]]);
                }
                assert(out@ =~= start + members_text(m@.take(i + 1)));
                i += 1;
            }
            assert(m@.take(m.len() as int) =~= m@);
            out.push('}');
            assert(out@ =~= before + json_text(*v));
        },
    }
}

/// The compact JSON text of a value (see `json_text`).
pub fn to_json_text(v: &Json) -> (r: String)
    ensures
        r@ == json_text(*v),
{
    let mut out: Vec<char> = Vec::new();
    push_json_text(&mut out, v);
    assert(out@ =~= json_text(*v));
    crate::text::string_of(&out)
}

} // verus!
