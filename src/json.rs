//! Rendering of the metadata model as a JSON document.
use vstd::prelude::*;
use vstd::string::StringExecFns;

use crate::schema::{
    ConstantInfo, EnumInfo, FieldInfo, FunctionInfo, ImplInfo, ModuleInfo, ParamInfo, RustMetadata,
    StructInfo, TraitInfo, TypeInfo,
};
use crate::text::{chars_of, push_char};

verus! {

/// The sixteen lower-case hexadecimal digits.
pub open spec fn hex_digits() -> Seq<char> {
    seq!['0', '1', '2', '3', '4', '5', '6', '7', '8', '9', 'a', 'b', 'c', 'd', 'e', 'f']
}

/// The value of a hexadecimal digit.
pub open spec fn hex_value(d: char) -> int {
    if '0' <= d && d <= '9' {
        d as int - '0' as int
    } else if 'a' <= d && d <= 'f' {
        d as int - 'a' as int + 10
    } else {
        0
    }
}

/// How one character is written inside a JSON string: quote and backslash
/// get a backslash, control characters become `\u00XX`, all others stand as they are.
pub open spec fn escape_char(c: char) -> Seq<char> {
    if c == '"' || c == '\\' {
        seq!['\\', c]
    } else if code_of(c) < 0x20 {
        seq!['\\', 'u', '0', '0', hex_digits()[code_of(c) / 16], hex_digits()[code_of(c) % 16]]
    } else {
        seq![c]
    }
}

/// The escaped form of a whole text.
pub open spec fn escape(s: Seq<char>) -> Seq<char>
    decreases s.len(),
{
    if s.len() == 0 {
        seq![]
    } else {
        escape_char(s[0]) + escape(s.drop_first())
    }
}

/// The code of a character.
pub open spec fn code_of(c: char) -> int {
    (c as u32) as int
}

/// The character with the given code.
pub open spec fn char_of_code(n: int) -> char {
    choose|c: char| #[trigger] code_of(c) == n
}

/// What a JSON reader recovers from the inside of a string written by `escape`.
pub open spec fn unescape(t: Seq<char>) -> Seq<char>
    decreases t.len(),
{
    if t.len() == 0 {
        seq![]
    } else if t[0] == '\\' && t.len() >= 2 && (t[1] == '"' || t[1] == '\\') {
        seq![t[1]] + unescape(t.subrange(2, t.len() as int))
    } else if t[0] == '\\' && t.len() >= 6 && t[1] == 'u' {
        let code = hex_value(t[2]) * 4096 + hex_value(t[3]) * 256 + hex_value(t[4]) * 16
            + hex_value(t[5]);
        seq![char_of_code(code)] + unescape(t.subrange(6, t.len() as int))
    } else {
        seq![t[0]] + unescape(t.drop_first())
    }
}

/// A text as a JSON string literal.
pub open spec fn quoted(s: Seq<char>) -> Seq<char> {
    seq!['"'] + escape(s) + seq!['"']
}

proof fn lemma_escape_concat(a: Seq<char>, b: Seq<char>)
    ensures
        escape(a + b) == escape(a) + escape(b),
    decreases a.len(),
{
    if a.len() == 0 {
        assert(a + b =~= b);
        assert(escape(a) + escape(b) =~= escape(b));
    } else {
        assert((a + b).drop_first() =~= a.drop_first() + b);
        lemma_escape_concat(a.drop_first(), b);
        assert(escape(a + b) =~= escape(a) + escape(b));
    }
}

proof fn lemma_escape_push(a: Seq<char>, c: char)
    ensures
        escape(a.push(c)) == escape(a) + escape_char(c),
{
    lemma_escape_concat(a, seq![c]);
    assert(a.push(c) =~= a + seq![c]);
    assert(seq![c].drop_first() =~= Seq::<char>::empty());
    assert(escape(Seq::<char>::empty()) == Seq::<char>::empty());
    assert(escape(seq![c]) == escape_char(c) + escape(Seq::<char>::empty()));
    assert(escape(seq![c]) =~= escape_char(c));
}

proof fn lemma_unescape_one(c: char, rest: Seq<char>)
    ensures
        unescape(escape_char(c) + rest) == seq![c] + unescape(rest),
{
    let t = escape_char(c) + rest;
    if c == '"' || c == '\\' {
        assert(t.subrange(2, t.len() as int) =~= rest);
    } else if code_of(c) < 0x20 {
        let n = code_of(c);
        assert(hex_value(hex_digits()[n / 16]) == n / 16);
        assert(hex_value(hex_digits()[n % 16]) == n % 16);
        assert(t.subrange(6, t.len() as int) =~= rest);
        assert(code_of(c) == n);
        assert(code_of(char_of_code(n)) == n);
        assert(char_of_code(n) == c);
    } else {
        assert(t.drop_first() =~= rest);
    }
}

/// Escaping loses nothing: reading an escaped text back gives exactly the same
/// text, whatever quotes, backslashes or control characters it holds.
pub proof fn lemma_escape_round_trip(s: Seq<char>)
    ensures
        unescape(escape(s)) == s,
    decreases s.len(),
{
    if s.len() > 0 {
        lemma_unescape_one(s[0], escape(s.drop_first()));
        lemma_escape_round_trip(s.drop_first());
        assert(seq![s[0]] + s.drop_first() =~= s);
    }
}

pub(crate) fn hex_char(n: u32) -> (c: char)
    requires
        n < 16,
    ensures
        c == hex_digits()[n as int],
{
    match n {
        0 => '0',
        1 => '1',
        2 => '2',
        3 => '3',
        4 => '4',
        5 => '5',
        6 => '6',
        7 => '7',
        8 => '8',
        9 => '9',
        10 => 'a',
        11 => 'b',
        12 => 'c',
        13 => 'd',
        14 => 'e',
        _ => 'f',
    }
}

/// Appends the escaped form of `s`.
pub fn write_escaped(out: &mut String, s: &str)
    ensures
        final(out)@ == old(out)@ + escape(s@),
{
    let cs = chars_of(s);
    let ghost start = out@;
    let mut i: usize = 0;
    while i < cs.len()
        invariant
            i <= cs@.len(),
            cs@ == s@,
            out@ == start + escape(cs@.subrange(0, i as int)),
        decreases cs.len() - i,
    {
        let c = cs[i];
        if c == '"' || c == '\\' {
            push_char(out, '\\');
            push_char(out, c);
        } else if (c as u32) < 0x20 {
            let code: u32 = c as u32;
            push_char(out, '\\');
            push_char(out, 'u');
            push_char(out, '0');
            push_char(out, '0');
            push_char(out, hex_char(code / 16));
            push_char(out, hex_char(code % 16));
        } else {
            push_char(out, c);
        }
        proof {
            lemma_escape_push(cs@.subrange(0, i as int), c);
            assert(cs@.subrange(0, i + 1) =~= cs@.subrange(0, i as int).push(c));
            assert(out@ =~= start + escape(cs@.subrange(0, i + 1)));
        }
        i += 1;
    }
    proof {
        assert(cs@.subrange(0, i as int) =~= s@);
    }
}

/// Appends `s` as a JSON string literal.
pub fn write_quoted(out: &mut String, s: &str)
    ensures
        final(out)@ == old(out)@ + quoted(s@),
{
    push_char(out, '"');
    write_escaped(out, s);
    push_char(out, '"');
    assert(out@ =~= old(out)@ + quoted(s@));
}

} // verus!

verus! {

/// `true` or `false`.
#[verifier::opaque]
pub open spec fn bool_text(b: bool) -> Seq<char> {
    if b {
        "true"@
    } else {
        "false"@
    }
}

/// The parts separated by commas.
pub open spec fn join(parts: Seq<Seq<char>>) -> Seq<char>
    decreases parts.len(),
{
    if parts.len() == 0 {
        seq![]
    } else if parts.len() == 1 {
        parts[0]
    } else {
        join(parts.drop_last()) + ","@ + parts.last()
    }
}

/// A JSON array of already rendered values.
pub open spec fn array(parts: Seq<Seq<char>>) -> Seq<char> {
    "["@ + join(parts) + "]"@
}

/// Each text as a JSON string.
pub open spec fn string_parts(v: Seq<String>) -> Seq<Seq<char>> {
    v.map_values(|s: String| quoted(s@))
}

/// A JSON array of strings.
pub open spec fn strings_json(v: Seq<String>) -> Seq<char> {
    array(string_parts(v))
}

fn write_bool(out: &mut String, b: bool)
    ensures
        final(out)@ == old(out)@ + bool_text(b),
{
    reveal(bool_text);
    if b {
        out.append("true");
    } else {
        out.append("false");
    }
}

proof fn lemma_join_step(parts: Seq<Seq<char>>, i: int)
    requires
        0 <= i < parts.len(),
    ensures
        join(parts.subrange(0, i + 1)) == if i == 0 {
            parts[0]
        } else {
            join(parts.subrange(0, i)) + ","@ + parts[i]
        },
{
    let p = parts.subrange(0, i + 1);
    assert(p.drop_last() =~= parts.subrange(0, i));
    assert(p.last() == parts[i]);
}

/// Appends a JSON array of strings.
fn write_strings(out: &mut String, v: &Vec<String>)
    ensures
        final(out)@ == old(out)@ + strings_json(v@),
{
    let ghost parts = string_parts(v@);
    out.append("[");
    let ghost start = out@;
    let mut i: usize = 0;
    while i < v.len()
        invariant
            i <= v@.len(),
            parts == string_parts(v@),
            out@ == start + join(parts.subrange(0, i as int)),
        decreases v.len() - i,
    {
        let ghost before = out@;
        if i > 0 {
            out.append(",");
        }
        write_quoted(out, v[i].as_str());
        proof {
            lemma_join_step(parts, i as int);
            assert(out@ =~= start + join(parts.subrange(0, i + 1)));
        }
        i += 1;
    }
    out.append("]");
    proof {
        assert(parts.subrange(0, i as int) =~= parts);
        assert(out@ =~= old(out)@ + strings_json(v@));
    }
}

} // verus!

verus! {

/// A field object.
pub open spec fn field_json(f: FieldInfo) -> Seq<char> {
    "{\"name\":"@ + quoted(f.name@) + ",\"type\":"@ + quoted(f.ty@) + ",\"isPublic\":"@
        + bool_text(f.is_pub) + "}"@
}

fn write_field(out: &mut String, f: &FieldInfo)
    ensures
        final(out)@ == old(out)@ + field_json(*f),
{
    out.append("{\"name\":");
    write_quoted(out, f.name.as_str());
    out.append(",\"type\":");
    write_quoted(out, f.ty.as_str());
    out.append(",\"isPublic\":");
    write_bool(out, f.is_pub);
    out.append("}");
    assert(out@ =~= old(out)@ + field_json(*f));
}

/// A parameter object.
pub open spec fn param_json(p: ParamInfo) -> Seq<char> {
    "{\"name\":"@ + quoted(p.name@) + ",\"type\":"@ + quoted(p.ty@) + ",\"isMut\":"@
        + bool_text(p.is_mut) + "}"@
}

fn write_param(out: &mut String, p: &ParamInfo)
    ensures
        final(out)@ == old(out)@ + param_json(*p),
{
    out.append("{\"name\":");
    write_quoted(out, p.name.as_str());
    out.append(",\"type\":");
    write_quoted(out, p.ty.as_str());
    out.append(",\"isMut\":");
    write_bool(out, p.is_mut);
    out.append("}");
    assert(out@ =~= old(out)@ + param_json(*p));
}

/// A struct object.
pub open spec fn struct_json(s: StructInfo) -> Seq<char> {
    "{\"name\":"@ + quoted(s.name@) + ",\"isPublic\":"@ + bool_text(s.is_pub)
        + ",\"generics\":"@ + strings_json(s.generics@) + ",\"fields\":"@ + array(
        field_parts(s.fields@),
    ) + ",\"derives\":"@ + strings_json(s.derives@) + "}"@
}

fn write_struct(out: &mut String, s: &StructInfo)
    ensures
        final(out)@ == old(out)@ + struct_json(*s),
{
    out.append("{\"name\":");
    write_quoted(out, s.name.as_str());
    out.append(",\"isPublic\":");
    write_bool(out, s.is_pub);
    out.append(",\"generics\":");
    write_strings(out, &s.generics);
    out.append(",\"fields\":");
    write_field_list(out, &s.fields);
    out.append(",\"derives\":");
    write_strings(out, &s.derives);
    out.append("}");
    assert(out@ =~= old(out)@ + struct_json(*s));
}

/// An enum object.
pub open spec fn enum_json(e: EnumInfo) -> Seq<char> {
    "{\"name\":"@ + quoted(e.name@) + ",\"isPublic\":"@ + bool_text(e.is_pub)
        + ",\"generics\":"@ + strings_json(e.generics@) + ",\"variants\":"@ + strings_json(
        e.variants@,
    ) + ",\"derives\":"@ + strings_json(e.derives@) + "}"@
}

fn write_enum(out: &mut String, e: &EnumInfo)
    ensures
        final(out)@ == old(out)@ + enum_json(*e),
{
    out.append("{\"name\":");
    write_quoted(out, e.name.as_str());
    out.append(",\"isPublic\":");
    write_bool(out, e.is_pub);
    out.append(",\"generics\":");
    write_strings(out, &e.generics);
    out.append(",\"variants\":");
    write_strings(out, &e.variants);
    out.append(",\"derives\":");
    write_strings(out, &e.derives);
    out.append("}");
    assert(out@ =~= old(out)@ + enum_json(*e));
}

/// A trait object.
pub open spec fn trait_json(t: TraitInfo) -> Seq<char> {
    "{\"name\":"@ + quoted(t.name@) + ",\"isPublic\":"@ + bool_text(t.is_pub)
        + ",\"generics\":"@ + strings_json(t.generics@) + ",\"methods\":"@ + strings_json(
        t.methods@,
    ) + "}"@
}

fn write_trait(out: &mut String, t: &TraitInfo)
    ensures
        final(out)@ == old(out)@ + trait_json(*t),
{
    out.append("{\"name\":");
    write_quoted(out, t.name.as_str());
    out.append(",\"isPublic\":");
    write_bool(out, t.is_pub);
    out.append(",\"generics\":");
    write_strings(out, &t.generics);
    out.append(",\"methods\":");
    write_strings(out, &t.methods);
    out.append("}");
    assert(out@ =~= old(out)@ + trait_json(*t));
}

/// The return-type member of a function object; nothing when there is none.
pub open spec fn return_type_json(r: Option<String>) -> Seq<char> {
    match r {
        Some(t) => ",\"returnType\":"@ + quoted(t@),
        None => seq![],
    }
}

/// The members of a function object up to its generics.
pub open spec fn function_head_json(f: FunctionInfo) -> Seq<char> {
    "{\"name\":"@ + quoted(f.name@) + ",\"isPublic\":"@ + bool_text(f.is_pub) + ",\"isAsync\":"@
        + bool_text(f.is_async) + ",\"isConst\":"@ + bool_text(f.is_const) + ",\"isUnsafe\":"@
        + bool_text(f.is_unsafe) + ",\"generics\":"@ + strings_json(f.generics@)
}

/// A function object.
pub open spec fn function_json(f: FunctionInfo) -> Seq<char> {
    function_head_json(f) + ",\"parameters\":"@ + array(param_parts(f.params@))
        + return_type_json(f.return_type) + "}"@
}

#[verifier::spinoff_prover]
#[verifier::rlimit(50)]
fn write_function_head(out: &mut String, f: &FunctionInfo)
    ensures
        final(out)@ == old(out)@ + function_head_json(*f),
{
    out.append("{\"name\":");
    write_quoted(out, f.name.as_str());
    out.append(",\"isPublic\":");
    write_bool(out, f.is_pub);
    out.append(",\"isAsync\":");
    write_bool(out, f.is_async);
    out.append(",\"isConst\":");
    write_bool(out, f.is_const);
    out.append(",\"isUnsafe\":");
    write_bool(out, f.is_unsafe);
    out.append(",\"generics\":");
    write_strings(out, &f.generics);
    assert(out@ =~= old(out)@ + function_head_json(*f));
}

fn write_function(out: &mut String, f: &FunctionInfo)
    ensures
        final(out)@ == old(out)@ + function_json(*f),
{
    write_function_head(out, f);
    out.append(",\"parameters\":");
    write_param_list(out, &f.params);
    let ghost mid = out@;
    match &f.return_type {
        Some(t) => {
            out.append(",\"returnType\":");
            write_quoted(out, t.as_str());
        },
        None => {},
    }
    assert(out@ =~= mid + return_type_json(f.return_type));
    out.append("}");
    assert(out@ =~= old(out)@ + function_json(*f));
}

/// The trait member of an impl object, with its trailing comma; nothing for an inherent impl.
pub open spec fn trait_name_json(t: Option<String>) -> Seq<char> {
    match t {
        Some(n) => "\"traitName\":"@ + quoted(n@) + ","@,
        None => seq![],
    }
}

/// An impl object.
pub open spec fn impl_json(i: ImplInfo) -> Seq<char> {
    "{"@ + trait_name_json(i.trait_name) + "\"targetType\":"@ + quoted(i.target_type@)
        + ",\"methods\":"@ + strings_json(i.methods@) + "}"@
}

fn write_impl(out: &mut String, i: &ImplInfo)
    ensures
        final(out)@ == old(out)@ + impl_json(*i),
{
    out.append("{");
    let ghost mid = out@;
    match &i.trait_name {
        Some(n) => {
            out.append("\"traitName\":");
            write_quoted(out, n.as_str());
            out.append(",");
        },
        None => {},
    }
    assert(out@ =~= mid + trait_name_json(i.trait_name));
    out.append("\"targetType\":");
    write_quoted(out, i.target_type.as_str());
    out.append(",\"methods\":");
    write_strings(out, &i.methods);
    out.append("}");
    assert(out@ =~= old(out)@ + impl_json(*i));
}

/// A module object.
pub open spec fn module_json(m: ModuleInfo) -> Seq<char> {
    "{\"name\":"@ + quoted(m.name@) + ",\"isPublic\":"@ + bool_text(m.is_pub) + "}"@
}

fn write_module(out: &mut String, m: &ModuleInfo)
    ensures
        final(out)@ == old(out)@ + module_json(*m),
{
    out.append("{\"name\":");
    write_quoted(out, m.name.as_str());
    out.append(",\"isPublic\":");
    write_bool(out, m.is_pub);
    out.append("}");
    assert(out@ =~= old(out)@ + module_json(*m));
}

/// The type member of a constant object; nothing when the type is unknown.
pub open spec fn constant_type_json(t: Option<String>) -> Seq<char> {
    match t {
        Some(n) => ",\"type\":"@ + quoted(n@),
        None => seq![],
    }
}

/// A constant object.
pub open spec fn constant_json(c: ConstantInfo) -> Seq<char> {
    "{\"name\":"@ + quoted(c.name@) + ",\"isPublic\":"@ + bool_text(c.is_pub)
        + constant_type_json(c.ty) + "}"@
}

fn write_constant(out: &mut String, c: &ConstantInfo)
    ensures
        final(out)@ == old(out)@ + constant_json(*c),
{
    out.append("{\"name\":");
    write_quoted(out, c.name.as_str());
    out.append(",\"isPublic\":");
    write_bool(out, c.is_pub);
    let ghost mid = out@;
    match &c.ty {
        Some(t) => {
            out.append(",\"type\":");
            write_quoted(out, t.as_str());
        },
        None => {},
    }
    assert(out@ =~= mid + constant_type_json(c.ty));
    out.append("}");
    assert(out@ =~= old(out)@ + constant_json(*c));
}

/// A type alias object.
pub open spec fn alias_json(t: TypeInfo) -> Seq<char> {
    "{\"name\":"@ + quoted(t.name@) + ",\"isPublic\":"@ + bool_text(t.is_pub) + "}"@
}

fn write_alias(out: &mut String, t: &TypeInfo)
    ensures
        final(out)@ == old(out)@ + alias_json(*t),
{
    out.append("{\"name\":");
    write_quoted(out, t.name.as_str());
    out.append(",\"isPublic\":");
    write_bool(out, t.is_pub);
    out.append("}");
    assert(out@ =~= old(out)@ + alias_json(*t));
}

} // verus!

verus! {
/// Each entry rendered as a field object.
pub open spec fn field_parts(v: Seq<FieldInfo>) -> Seq<Seq<char>> {
    v.map_values(|x: FieldInfo| field_json(x))
}

fn write_field_list(out: &mut String, v: &Vec<FieldInfo>)
    ensures
        final(out)@ == old(out)@ + array(field_parts(v@)),
{
    let ghost parts = field_parts(v@);
    out.append("[");
    let ghost start = out@;
    let mut i: usize = 0;
    while i < v.len()
        invariant
            i <= v@.len(),
            parts == field_parts(v@),
            out@ == start + join(parts.subrange(0, i as int)),
        decreases v.len() - i,
    {
        if i > 0 {
            out.append(",");
        }
        write_field(out, &v[i]);
        proof {
            lemma_join_step(parts, i as int);
            assert(out@ =~= start + join(parts.subrange(0, i + 1)));
        }
        i += 1;
    }
    out.append("]");
    proof {
        assert(parts.subrange(0, i as int) =~= parts);
        assert(out@ =~= old(out)@ + array(field_parts(v@)));
    }
}

/// Each entry rendered as a parameter object.
pub open spec fn param_parts(v: Seq<ParamInfo>) -> Seq<Seq<char>> {
    v.map_values(|x: ParamInfo| param_json(x))
}

fn write_param_list(out: &mut String, v: &Vec<ParamInfo>)
    ensures
        final(out)@ == old(out)@ + array(param_parts(v@)),
{
    let ghost parts = param_parts(v@);
    out.append("[");
    let ghost start = out@;
    let mut i: usize = 0;
    while i < v.len()
        invariant
            i <= v@.len(),
            parts == param_parts(v@),
            out@ == start + join(parts.subrange(0, i as int)),
        decreases v.len() - i,
    {
        if i > 0 {
            out.append(",");
        }
        write_param(out, &v[i]);
        proof {
            lemma_join_step(parts, i as int);
            assert(out@ =~= start + join(parts.subrange(0, i + 1)));
        }
        i += 1;
    }
    out.append("]");
    proof {
        assert(parts.subrange(0, i as int) =~= parts);
        assert(out@ =~= old(out)@ + array(param_parts(v@)));
    }
}

/// Each entry rendered as a struct object.
pub open spec fn struct_parts(v: Seq<StructInfo>) -> Seq<Seq<char>> {
    v.map_values(|x: StructInfo| struct_json(x))
}

fn write_struct_list(out: &mut String, v: &Vec<StructInfo>)
    ensures
        final(out)@ == old(out)@ + array(struct_parts(v@)),
{
    let ghost parts = struct_parts(v@);
    out.append("[");
    let ghost start = out@;
    let mut i: usize = 0;
    while i < v.len()
        invariant
            i <= v@.len(),
            parts == struct_parts(v@),
            out@ == start + join(parts.subrange(0, i as int)),
        decreases v.len() - i,
    {
        if i > 0 {
            out.append(",");
        }
        write_struct(out, &v[i]);
        proof {
            lemma_join_step(parts, i as int);
            assert(out@ =~= start + join(parts.subrange(0, i + 1)));
        }
        i += 1;
    }
    out.append("]");
    proof {
        assert(parts.subrange(0, i as int) =~= parts);
        assert(out@ =~= old(out)@ + array(struct_parts(v@)));
    }
}

/// Each entry rendered as an enum object.
pub open spec fn enum_parts(v: Seq<EnumInfo>) -> Seq<Seq<char>> {
    v.map_values(|x: EnumInfo| enum_json(x))
}

fn write_enum_list(out: &mut String, v: &Vec<EnumInfo>)
    ensures
        final(out)@ == old(out)@ + array(enum_parts(v@)),
{
    let ghost parts = enum_parts(v@);
    out.append("[");
    let ghost start = out@;
    let mut i: usize = 0;
    while i < v.len()
        invariant
            i <= v@.len(),
            parts == enum_parts(v@),
            out@ == start + join(parts.subrange(0, i as int)),
        decreases v.len() - i,
    {
        if i > 0 {
            out.append(",");
        }
        write_enum(out, &v[i]);
        proof {
            lemma_join_step(parts, i as int);
            assert(out@ =~= start + join(parts.subrange(0, i + 1)));
        }
        i += 1;
    }
    out.append("]");
    proof {
        assert(parts.subrange(0, i as int) =~= parts);
        assert(out@ =~= old(out)@ + array(enum_parts(v@)));
    }
}

/// Each entry rendered as a trait object.
pub open spec fn trait_parts(v: Seq<TraitInfo>) -> Seq<Seq<char>> {
    v.map_values(|x: TraitInfo| trait_json(x))
}

fn write_trait_list(out: &mut String, v: &Vec<TraitInfo>)
    ensures
        final(out)@ == old(out)@ + array(trait_parts(v@)),
{
    let ghost parts = trait_parts(v@);
    out.append("[");
    let ghost start = out@;
    let mut i: usize = 0;
    while i < v.len()
        invariant
            i <= v@.len(),
            parts == trait_parts(v@),
            out@ == start + join(parts.subrange(0, i as int)),
        decreases v.len() - i,
    {
        if i > 0 {
            out.append(",");
        }
        write_trait(out, &v[i]);
        proof {
            lemma_join_step(parts, i as int);
            assert(out@ =~= start + join(parts.subrange(0, i + 1)));
        }
        i += 1;
    }
    out.append("]");
    proof {
        assert(parts.subrange(0, i as int) =~= parts);
        assert(out@ =~= old(out)@ + array(trait_parts(v@)));
    }
}

/// Each entry rendered as a function object.
pub open spec fn function_parts(v: Seq<FunctionInfo>) -> Seq<Seq<char>> {
    v.map_values(|x: FunctionInfo| function_json(x))
}

fn write_function_list(out: &mut String, v: &Vec<FunctionInfo>)
    ensures
        final(out)@ == old(out)@ + array(function_parts(v@)),
{
    let ghost parts = function_parts(v@);
    out.append("[");
    let ghost start = out@;
    let mut i: usize = 0;
    while i < v.len()
        invariant
            i <= v@.len(),
            parts == function_parts(v@),
            out@ == start + join(parts.subrange(0, i as int)),
        decreases v.len() - i,
    {
        if i > 0 {
            out.append(",");
        }
        write_function(out, &v[i]);
        proof {
            lemma_join_step(parts, i as int);
            assert(out@ =~= start + join(parts.subrange(0, i + 1)));
        }
        i += 1;
    }
    out.append("]");
    proof {
        assert(parts.subrange(0, i as int) =~= parts);
        assert(out@ =~= old(out)@ + array(function_parts(v@)));
    }
}

/// Each entry rendered as an impl block object.
pub open spec fn impl_parts(v: Seq<ImplInfo>) -> Seq<Seq<char>> {
    v.map_values(|x: ImplInfo| impl_json(x))
}

fn write_impl_list(out: &mut String, v: &Vec<ImplInfo>)
    ensures
        final(out)@ == old(out)@ + array(impl_parts(v@)),
{
    let ghost parts = impl_parts(v@);
    out.append("[");
    let ghost start = out@;
    let mut i: usize = 0;
    while i < v.len()
        invariant
            i <= v@.len(),
            parts == impl_parts(v@),
            out@ == start + join(parts.subrange(0, i as int)),
        decreases v.len() - i,
    {
        if i > 0 {
            out.append(",");
        }
        write_impl(out, &v[i]);
        proof {
            lemma_join_step(parts, i as int);
            assert(out@ =~= start + join(parts.subrange(0, i + 1)));
        }
        i += 1;
    }
    out.append("]");
    proof {
        assert(parts.subrange(0, i as int) =~= parts);
        assert(out@ =~= old(out)@ + array(impl_parts(v@)));
    }
}

/// Each entry rendered as a module object.
pub open spec fn module_parts(v: Seq<ModuleInfo>) -> Seq<Seq<char>> {
    v.map_values(|x: ModuleInfo| module_json(x))
}

fn write_module_list(out: &mut String, v: &Vec<ModuleInfo>)
    ensures
        final(out)@ == old(out)@ + array(module_parts(v@)),
{
    let ghost parts = module_parts(v@);
    out.append("[");
    let ghost start = out@;
    let mut i: usize = 0;
    while i < v.len()
        invariant
            i <= v@.len(),
            parts == module_parts(v@),
            out@ == start + join(parts.subrange(0, i as int)),
        decreases v.len() - i,
    {
        if i > 0 {
            out.append(",");
        }
        write_module(out, &v[i]);
        proof {
            lemma_join_step(parts, i as int);
            assert(out@ =~= start + join(parts.subrange(0, i + 1)));
        }
        i += 1;
    }
    out.append("]");
    proof {
        assert(parts.subrange(0, i as int) =~= parts);
        assert(out@ =~= old(out)@ + array(module_parts(v@)));
    }
}

/// Each entry rendered as a constant object.
pub open spec fn constant_parts(v: Seq<ConstantInfo>) -> Seq<Seq<char>> {
    v.map_values(|x: ConstantInfo| constant_json(x))
}

fn write_constant_list(out: &mut String, v: &Vec<ConstantInfo>)
    ensures
        final(out)@ == old(out)@ + array(constant_parts(v@)),
{
    let ghost parts = constant_parts(v@);
    out.append("[");
    let ghost start = out@;
    let mut i: usize = 0;
    while i < v.len()
        invariant
            i <= v@.len(),
            parts == constant_parts(v@),
            out@ == start + join(parts.subrange(0, i as int)),
        decreases v.len() - i,
    {
        if i > 0 {
            out.append(",");
        }
        write_constant(out, &v[i]);
        proof {
            lemma_join_step(parts, i as int);
            assert(out@ =~= start + join(parts.subrange(0, i + 1)));
        }
        i += 1;
    }
    out.append("]");
    proof {
        assert(parts.subrange(0, i as int) =~= parts);
        assert(out@ =~= old(out)@ + array(constant_parts(v@)));
    }
}

/// Each entry rendered as a type alias object.
pub open spec fn alias_parts(v: Seq<TypeInfo>) -> Seq<Seq<char>> {
    v.map_values(|x: TypeInfo| alias_json(x))
}

fn write_alias_list(out: &mut String, v: &Vec<TypeInfo>)
    ensures
        final(out)@ == old(out)@ + array(alias_parts(v@)),
{
    let ghost parts = alias_parts(v@);
    out.append("[");
    let ghost start = out@;
    let mut i: usize = 0;
    while i < v.len()
        invariant
            i <= v@.len(),
            parts == alias_parts(v@),
            out@ == start + join(parts.subrange(0, i as int)),
        decreases v.len() - i,
    {
        if i > 0 {
            out.append(",");
        }
        write_alias(out, &v[i]);
        proof {
            lemma_join_step(parts, i as int);
            assert(out@ =~= start + join(parts.subrange(0, i + 1)));
        }
        i += 1;
    }
    out.append("]");
    proof {
        assert(parts.subrange(0, i as int) =~= parts);
        assert(out@ =~= old(out)@ + array(alias_parts(v@)));
    }
}

} // verus!

verus! {

/// Which extractor produced a metadata record.
#[derive(Debug, Clone, Copy, PartialEq, Eq)]
pub enum ExtractorTier {
    /// Built from a full syntax tree.
    Exact,
    /// Built by pattern matching over the raw text.
    Heuristic,
}

/// The name under which a tier is reported in the document.
pub open spec fn tier_name(t: ExtractorTier) -> Seq<char> {
    match t {
        ExtractorTier::Exact => "rustc/syn"@,
        ExtractorTier::Heuristic => "regex"@,
    }
}

/// The first four collections of the document, with its opening brace.
pub open spec fn document_types_json(m: RustMetadata) -> Seq<char> {
    "{\"structs\":"@ + array(struct_parts(m.structs@)) + ",\"enums\":"@ + array(
        enum_parts(m.enums@),
    ) + ",\"traits\":"@ + array(trait_parts(m.traits@)) + ",\"functions\":"@ + array(
        function_parts(m.functions@),
    )
}

/// The next five collections of the document.
pub open spec fn document_items_json(m: RustMetadata) -> Seq<char> {
    ",\"impls\":"@ + array(impl_parts(m.impls@)) + ",\"modules\":"@ + array(
        module_parts(m.modules@),
    ) + ",\"uses\":"@ + strings_json(m.uses@) + ",\"constants\":"@ + array(
        constant_parts(m.constants@),
    ) + ",\"types\":"@ + array(alias_parts(m.types@))
}

/// The closing members of the document: the tier, the schema version and the success flag.
pub open spec fn document_tail_json(t: ExtractorTier) -> Seq<char> {
    ",\"parser\":"@ + quoted(tier_name(t)) + ",\"version\":\"1.0.0\",\"success\":true}"@
}

/// The whole document for a metadata record produced by the given tier.
pub open spec fn document(m: RustMetadata, t: ExtractorTier) -> Seq<char> {
    document_types_json(m) + document_items_json(m) + document_tail_json(t)
}

#[verifier::spinoff_prover]
#[verifier::rlimit(50)]
fn write_document_types(out: &mut String, m: &RustMetadata)
    ensures
        final(out)@ == old(out)@ + document_types_json(*m),
{
    out.append("{\"structs\":");
    write_struct_list(out, &m.structs);
    out.append(",\"enums\":");
    write_enum_list(out, &m.enums);
    out.append(",\"traits\":");
    write_trait_list(out, &m.traits);
    out.append(",\"functions\":");
    write_function_list(out, &m.functions);
    assert(out@ =~= old(out)@ + document_types_json(*m));
}

#[verifier::spinoff_prover]
#[verifier::rlimit(50)]
fn write_document_items(out: &mut String, m: &RustMetadata)
    ensures
        final(out)@ == old(out)@ + document_items_json(*m),
{
    out.append(",\"impls\":");
    write_impl_list(out, &m.impls);
    out.append(",\"modules\":");
    write_module_list(out, &m.modules);
    out.append(",\"uses\":");
    write_strings(out, &m.uses);
    out.append(",\"constants\":");
    write_constant_list(out, &m.constants);
    out.append(",\"types\":");
    write_alias_list(out, &m.types);
    assert(out@ =~= old(out)@ + document_items_json(*m));
}

fn write_document_tail(out: &mut String, t: ExtractorTier)
    ensures
        final(out)@ == old(out)@ + document_tail_json(t),
{
    out.append(",\"parser\":");
    match t {
        ExtractorTier::Exact => write_quoted(out, "rustc/syn"),
        ExtractorTier::Heuristic => write_quoted(out, "regex"),
    }
    out.append(",\"version\":\"1.0.0\",\"success\":true}");
    assert(out@ =~= old(out)@ + document_tail_json(t));
}

impl RustMetadata {
    /// Renders the record as one JSON object: the nine collections in their
    /// fixed order, each entry's members in their fixed order, absent optional
    /// members left out, every text escaped.
    pub fn to_json(&self, tier: ExtractorTier) -> (r: String)
        ensures
            r@ == document(*self, tier),
    {
        let mut out = String::new();
        write_document_types(&mut out, self);
        write_document_items(&mut out, self);
        write_document_tail(&mut out, tier);
        assert(out@ =~= document(*self, tier));
        out
    }
}

/// Rendering depends on the record's contents alone: two records with equal
/// contents, rendered by the same tier, give the same document.
pub proof fn lemma_render_deterministic(a: RustMetadata, b: RustMetadata, t: ExtractorTier)
    requires
        a.structs@ == b.structs@,
        a.enums@ == b.enums@,
        a.traits@ == b.traits@,
        a.functions@ == b.functions@,
        a.impls@ == b.impls@,
        a.modules@ == b.modules@,
        a.uses@ == b.uses@,
        a.constants@ == b.constants@,
        a.types@ == b.types@,
    ensures
        document(a, t) == document(b, t),
{
}

/// A function without a return type renders with no return-type member at
/// all: its object closes right after the parameter list.
pub proof fn lemma_no_return_type_omitted(f: FunctionInfo)
    requires
        f.return_type is None,
    ensures
        function_json(f) == function_head_json(f) + ",\"parameters\":"@ + array(
            param_parts(f.params@),
        ) + "}"@,
{
    assert(return_type_json(f.return_type) =~= Seq::<char>::empty());
    assert(function_json(f) =~= function_head_json(f) + ",\"parameters\":"@ + array(
        param_parts(f.params@),
    ) + "}"@);
}

} // verus!

verus! {

/// The document reported when extraction fails.
pub open spec fn error_document(message: Seq<char>) -> Seq<char> {
    "{\"error\":"@ + quoted(message) + ",\"success\":false}"@
}

/// Renders the failure document for `message`, escaped like every other text.
pub fn error_json(message: &str) -> (r: String)
    ensures
        r@ == error_document(message@),
{
    let mut out = String::from_str("{\"error\":");
    write_quoted(&mut out, message);
    out.append(",\"success\":false}");
    assert(out@ =~= error_document(message@));
    out
}

} // verus!

verus! {

/// What a JSON reader takes from the text just after an opening quote: the
/// decoded contents up to the closing quote, and the text after that quote.
pub open spec fn read_literal(t: Seq<char>) -> (Seq<char>, Seq<char>)
    decreases t.len(),
{
    if t.len() == 0 {
        (seq![], seq![])
    } else if t[0] == '"' {
        (seq![], t.drop_first())
    } else if t[0] == '\\' && t.len() >= 2 && (t[1] == '"' || t[1] == '\\') {
        let r = read_literal(t.subrange(2, t.len() as int));
        (seq![t[1]] + r.0, r.1)
    } else if t[0] == '\\' && t.len() >= 6 && t[1] == 'u' {
        let code = hex_value(t[2]) * 4096 + hex_value(t[3]) * 256 + hex_value(t[4]) * 16
            + hex_value(t[5]);
        let r = read_literal(t.subrange(6, t.len() as int));
        (seq![char_of_code(code)] + r.0, r.1)
    } else {
        let r = read_literal(t.drop_first());
        (seq![t[0]] + r.0, r.1)
    }
}

/// What a JSON reader takes from the items of a string array: at most `k`
/// string literals separated by commas.
pub open spec fn read_items(t: Seq<char>, k: nat) -> Seq<Seq<char>>
    decreases k,
{
    if k == 0 || t.len() == 0 || t[0] != '"' {
        seq![]
    } else {
        let r = read_literal(t.drop_first());
        if r.1.len() > 0 && r.1[0] == ',' {
            seq![r.0] + read_items(r.1.drop_first(), (k - 1) as nat)
        } else {
            seq![r.0]
        }
    }
}

proof fn lemma_read_one(c: char, rest: Seq<char>)
    ensures
        read_literal(escape_char(c) + rest) == (seq![c] + read_literal(rest).0, read_literal(
            rest,
        ).1),
{
    let t = escape_char(c) + rest;
    if c == '"' || c == '\\' {
        assert(t.subrange(2, t.len() as int) =~= rest);
    } else if code_of(c) < 0x20 {
        let n = code_of(c);
        assert(hex_value(hex_digits()[n / 16]) == n / 16);
        assert(hex_value(hex_digits()[n % 16]) == n % 16);
        assert(t.subrange(6, t.len() as int) =~= rest);
        assert(code_of(c) == n);
        assert(code_of(char_of_code(n)) == n);
    } else {
        assert(t.drop_first() =~= rest);
    }
}

/// A quoted text is read back exactly, and the reader stops right after its closing quote.
pub proof fn lemma_read_literal(s: Seq<char>, rest: Seq<char>)
    ensures
        read_literal(escape(s) + seq!['"'] + rest) == (s, rest),
    decreases s.len(),
{
    if s.len() == 0 {
        assert(escape(s) + seq!['"'] + rest =~= seq!['"'] + rest);
        assert((seq!['"'] + rest).drop_first() =~= rest);
    } else {
        let tail = escape(s.drop_first()) + seq!['"'] + rest;
        assert(escape(s) + seq!['"'] + rest =~= escape_char(s[0]) + tail);
        lemma_read_one(s[0], tail);
        lemma_read_literal(s.drop_first(), rest);
        assert(seq![s[0]] + s.drop_first() =~= s);
    }
}

proof fn lemma_join_front(parts: Seq<Seq<char>>)
    requires
        parts.len() >= 2,
    ensures
        join(parts) == parts[0] + ","@ + join(parts.drop_first()),
    decreases parts.len(),
{
    if parts.len() > 2 {
        lemma_join_front(parts.drop_last());
        assert(parts.drop_last().drop_first() =~= parts.drop_first().drop_last());
        assert(parts.drop_first().last() == parts.last());
        assert(parts.drop_last()[0] == parts[0]);
        let mid = join(parts.drop_first().drop_last());
        assert(join(parts.drop_last()) == parts[0] + ","@ + mid);
        assert(join(parts.drop_first()) == mid + ","@ + parts.last());
        assert(join(parts) == join(parts.drop_last()) + ","@ + parts.last());
        assert(join(parts) =~= parts[0] + ","@ + join(parts.drop_first()));
    } else {
        assert(parts.drop_first().len() == 1);
        assert(parts.drop_last().len() == 1);
        assert(join(parts.drop_last()) == parts.drop_last()[0]);
        assert(join(parts.drop_first()) == parts.drop_first()[0]);
        assert(parts.drop_first()[0] == parts.last());
        assert(join(parts) == join(parts.drop_last()) + ","@ + parts.last());
        assert(join(parts) =~= parts[0] + ","@ + join(parts.drop_first()));
    }
}

proof fn lemma_read_joined(v: Seq<String>, tail: Seq<char>)
    requires
        tail.len() > 0,
        tail[0] == ']',
    ensures
        read_items(join(string_parts(v)) + tail, v.len()) == v.map_values(|s: String| s@),
    decreases v.len(),
{
    let parts = string_parts(v);
    if v.len() == 0 {
        assert(join(parts) + tail =~= tail);
        assert(v.map_values(|s: String| s@) =~= Seq::<Seq<char>>::empty());
    } else {
        let t = join(parts) + tail;
        let w = v.drop_first();
        assert(string_parts(w) =~= parts.drop_first());
        if v.len() == 1 {
            assert(t =~= seq!['"'] + (escape(v[0]@) + seq!['"'] + tail));
            assert(t.drop_first() =~= escape(v[0]@) + seq!['"'] + tail);
            lemma_read_literal(v[0]@, tail);
            assert(v.map_values(|s: String| s@) =~= seq![v[0]@]);
        } else {
            lemma_join_front(parts);
            let after = ","@ + join(string_parts(w)) + tail;
            assert(t =~= seq!['"'] + (escape(v[0]@) + seq!['"'] + after));
            assert(t.drop_first() =~= escape(v[0]@) + seq!['"'] + after);
            lemma_read_literal(v[0]@, after);
            reveal_strlit(",");
            assert(after[0] == ',');
            assert(after.drop_first() =~= join(string_parts(w)) + tail);
            lemma_read_joined(w, tail);
            assert(v.map_values(|s: String| s@) =~= seq![v[0]@] + w.map_values(|s: String| s@));
        }
    }
}

/// Every array of strings in the document (uses, variants, methods,
/// generics, derives) reads back as exactly the texts it was made from,
/// whatever quotes, backslashes or control characters they hold.
pub proof fn lemma_string_array_reads_back(v: Seq<String>)
    ensures
        strings_json(v)[0] == '[',
        read_items(strings_json(v).drop_first(), v.len()) == v.map_values(|s: String| s@),
{
    reveal_strlit("[");
    reveal_strlit("]");
    let tail = "]"@;
    assert(strings_json(v).drop_first() =~= join(string_parts(v)) + tail);
    lemma_read_joined(v, tail);
}

} // verus!

verus! {

/// The members of the document between the first four collections and the `uses` array.
#[verifier::opaque]
pub open spec fn uses_lead(m: RustMetadata) -> Seq<char> {
    ",\"impls\":"@ + array(impl_parts(m.impls@)) + ",\"modules\":"@ + array(
        module_parts(m.modules@),
    ) + ",\"uses\":"@
}

/// The members of the document between the `uses` array and the closing members.
#[verifier::opaque]
pub open spec fn uses_trail(m: RustMetadata) -> Seq<char> {
    ",\"constants\":"@ + array(constant_parts(m.constants@)) + ",\"types\":"@ + array(
        alias_parts(m.types@),
    )
}

proof fn lemma_items_split(m: RustMetadata)
    ensures
        document_items_json(m) == uses_lead(m) + strings_json(m.uses@) + uses_trail(m),
{
    reveal(uses_lead);
    reveal(uses_trail);
    assert(document_items_json(m) =~= uses_lead(m) + strings_json(m.uses@) + uses_trail(m));
}

/// The `uses` member of the document reads back as exactly the record's
/// paths, in their order: the document is the text before the member's
/// array, the array, and the text after it.
#[verifier::spinoff_prover]
#[verifier::rlimit(100)]
pub proof fn lemma_document_uses_read_back(m: RustMetadata, t: ExtractorTier)
    ensures
        document(m, t) == document_types_json(m) + uses_lead(m) + strings_json(m.uses@)
            + uses_trail(m) + document_tail_json(t),
        read_items(strings_json(m.uses@).drop_first(), m.uses@.len()) == m.uses@.map_values(
            |s: String| s@,
        ),
{
    lemma_string_array_reads_back(m.uses@);
    lemma_items_split(m);
    let x = document_types_json(m);
    let l = uses_lead(m);
    let u = strings_json(m.uses@);
    let r = uses_trail(m);
    let z = document_tail_json(t);
    assert(x + (l + u + r) + z =~= x + l + u + r + z);
}

} // verus!
