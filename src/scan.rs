//! The line-by-line variant of the heuristic tier: each line is classified on
//! its own by its leading words.
//!
//! A word is a maximal run of identifier characters (ASCII letters, digits and
//! `_`). Only lines that start at column 0 are read. Their leading words are
//! each separated from the next by whitespace; any other character (`(`, `<`, `{`,
//! `;`, `:`, ...) ends the word before it and the scan of the line.
use vstd::prelude::*;

use crate::schema::{
    ConstantInfo, EnumInfo, FunctionInfo, ModuleInfo, RustMetadata, StructInfo, TraitInfo, TypeInfo,
};
use crate::text::{chars_of, string_from_chars};

verus! {

/// The identifier characters.
pub open spec fn is_ident_char(c: char) -> bool {
    ('a' <= c && c <= 'z') || ('A' <= c && c <= 'Z') || ('0' <= c && c <= '9') || c == '_'
}

/// The whitespace characters inside a line.
pub open spec fn is_space(c: char) -> bool {
    c == ' ' || c == '\t' || c == '\r'
}

/// The first position at or after `i` that is not whitespace.
pub open spec fn skip_space(s: Seq<char>, i: int) -> int
    decreases s.len() - i,
{
    if i < 0 || i >= s.len() || !is_space(s[i]) {
        i
    } else {
        skip_space(s, i + 1)
    }
}

/// The first position at or after `i` that is not an identifier character.
pub open spec fn word_end(s: Seq<char>, i: int) -> int
    decreases s.len() - i,
{
    if i < 0 || i >= s.len() || !is_ident_char(s[i]) {
        i
    } else {
        word_end(s, i + 1)
    }
}

/// At most `k` leading words of `s` from position `i`.
pub open spec fn words_from(s: Seq<char>, i: int, k: nat) -> Seq<Seq<char>>
    decreases k,
{
    let a = skip_space(s, i);
    if k == 0 || a < 0 || a >= s.len() || !is_ident_char(s[a]) {
        seq![]
    } else {
        let b = word_end(s, a);
        let rest = if b < s.len() && is_space(s[b]) {
            words_from(s, b, (k - 1) as nat)
        } else {
            seq![]
        };
        seq![s.subrange(a, b)] + rest
    }
}

/// The most leading words a declaration needs: four qualifiers, `fn` and a name.
pub open spec fn max_words() -> nat {
    6
}

fn skip_space_exec(s: &Vec<char>, i: usize) -> (j: usize)
    requires
        i <= s@.len(),
    ensures
        j as int == skip_space(s@, i as int),
        i <= j <= s@.len(),
{
    let mut j = i;
    while j < s.len() && (s[j] == ' ' || s[j] == '\t' || s[j] == '\r')
        invariant
            i <= j <= s@.len(),
            skip_space(s@, i as int) == skip_space(s@, j as int),
        decreases s.len() - j,
    {
        j += 1;
    }
    j
}

fn is_ident_exec(c: char) -> (r: bool)
    ensures
        r == is_ident_char(c),
{
    ('a' <= c && c <= 'z') || ('A' <= c && c <= 'Z') || ('0' <= c && c <= '9') || c == '_'
}

fn word_end_exec(s: &Vec<char>, i: usize) -> (j: usize)
    requires
        i <= s@.len(),
    ensures
        j as int == word_end(s@, i as int),
        i <= j <= s@.len(),
{
    let mut j = i;
    while j < s.len() && is_ident_exec(s[j])
        invariant
            i <= j <= s@.len(),
            word_end(s@, i as int) == word_end(s@, j as int),
        decreases s.len() - j,
    {
        j += 1;
    }
    j
}

/// The leading words from position `i`, at most `k` of them.
pub(crate) fn words_exec(s: &Vec<char>, i: usize, k: usize) -> (r: Vec<Vec<char>>)
    requires
        i <= s@.len(),
    ensures
        r@.map_values(|w: Vec<char>| w@) == words_from(s@, i as int, k as nat),
    decreases k,
{
    let a = skip_space_exec(s, i);
    if k == 0 || a >= s.len() || !is_ident_exec(s[a]) {
        let r: Vec<Vec<char>> = Vec::new();
        assert(r@.map_values(|w: Vec<char>| w@) =~= words_from(s@, i as int, k as nat));
        return r;
    }
    let b = word_end_exec(s, a);
    let mut w: Vec<char> = Vec::new();
    let mut p = a;
    while p < b
        invariant
            a <= p <= b <= s@.len(),
            w@ == s@.subrange(a as int, p as int),
        decreases b - p,
    {
        w.push(s[p]);
        assert(s@.subrange(a as int, p + 1) =~= s@.subrange(a as int, p as int).push(s@[p as int]));
        p += 1;
    }
    let mut rest = if b < s.len() && (s[b] == ' ' || s[b] == '\t' || s[b] == '\r') {
        words_exec(s, b, k - 1)
    } else {
        Vec::new()
    };
    let ghost rest_view = rest@;
    let mut r: Vec<Vec<char>> = Vec::new();
    r.push(w);
    r.append(&mut rest);
    assert(r@ =~= seq![w] + rest_view);
    assert(r@.map_values(|w: Vec<char>| w@) =~= words_from(s@, i as int, k as nat));
    r
}

} // verus!

verus! {

/// The kinds of declaration a line can open.
#[derive(Debug, Clone, Copy, PartialEq, Eq)]
pub enum DeclKind {
    Struct,
    Enum,
    Trait,
    Function,
    Module,
    Constant,
    TypeAlias,
}

/// A declaration found on one line: its kind, its name and the qualifiers in front of it.
#[derive(Debug, Clone)]
pub struct LineDecl {
    pub kind: DeclKind,
    pub name: String,
    pub is_pub: bool,
    pub is_async: bool,
    pub is_const: bool,
    pub is_unsafe: bool,
}

/// The view of a line declaration.
pub type DeclView = (DeclKind, Seq<char>, bool, bool, bool, bool);

/// The view of a line declaration.
pub open spec fn decl_view(d: LineDecl) -> DeclView {
    (d.kind, d.name@, d.is_pub, d.is_async, d.is_const, d.is_unsafe)
}

/// The words that may stand before `fn`, in any order.
pub open spec fn is_qualifier(w: Seq<char>) -> bool {
    w == "pub"@ || w == "async"@ || w == "const"@ || w == "unsafe"@
}

/// The position of the first word at or after `i` that is not a qualifier.
pub open spec fn first_non_qualifier(ws: Seq<Seq<char>>, i: int) -> int
    decreases ws.len() - i,
{
    if 0 <= i < ws.len() && is_qualifier(ws[i]) {
        first_non_qualifier(ws, i + 1)
    } else {
        i
    }
}

/// The kind that a keyword introduces, other than a function.
pub open spec fn keyword_kind(w: Seq<char>) -> Option<DeclKind> {
    if w == "struct"@ {
        Some(DeclKind::Struct)
    } else if w == "enum"@ {
        Some(DeclKind::Enum)
    } else if w == "trait"@ {
        Some(DeclKind::Trait)
    } else if w == "mod"@ {
        Some(DeclKind::Module)
    } else if w == "const"@ {
        Some(DeclKind::Constant)
    } else if w == "type"@ {
        Some(DeclKind::TypeAlias)
    } else {
        None
    }
}

/// What the leading words of a line declare. Qualifiers followed by `fn` and
/// a name make a function, with each qualifier flagged wherever it stands;
/// otherwise an optional `pub`, a keyword and a name make a declaration of
/// that keyword's kind.
pub open spec fn classify(ws: Seq<Seq<char>>) -> Option<DeclView> {
    let q = first_non_qualifier(ws, 0);
    if q + 1 < ws.len() && ws[q] == "fn"@ {
        let quals = ws.subrange(0, q);
        Some(
            (
                DeclKind::Function,
                ws[q + 1],
                quals.contains("pub"@),
                quals.contains("async"@),
                quals.contains("const"@),
                quals.contains("unsafe"@),
            ),
        )
    } else {
        let p: int = if ws.len() > 0 && ws[0] == "pub"@ {
            1
        } else {
            0
        };
        if p + 1 < ws.len() && keyword_kind(ws[p]) is Some {
            Some((keyword_kind(ws[p])->0, ws[p + 1], p == 1, false, false, false))
        } else {
            None
        }
    }
}

/// What one line declares. Only a line that starts at column 0 can open a
/// top-level declaration: an indented line (a method, a nested item) declares nothing.
pub open spec fn classify_line(line: Seq<char>) -> Option<DeclView> {
    if line.len() > 0 && is_space(line[0]) {
        None
    } else {
        classify(words_from(line, 0, max_words()))
    }
}

fn word_is(w: &Vec<char>, lit: &str) -> (r: bool)
    ensures
        r == (w@ == lit@),
{
    let l = chars_of(lit);
    if w.len() != l.len() {
        return false;
    }
    let mut i: usize = 0;
    while i < w.len()
        invariant
            i <= w@.len(),
            w@.len() == l@.len(),
            l@ == lit@,
            forall|j: int| 0 <= j < i ==> w@[j] == l@[j],
        decreases w.len() - i,
    {
        if w[i] != l[i] {
            return false;
        }
        i += 1;
    }
    assert(w@ =~= l@);
    true
}

fn is_qualifier_exec(w: &Vec<char>) -> (r: bool)
    ensures
        r == is_qualifier(w@),
{
    word_is(w, "pub") || word_is(w, "async") || word_is(w, "const") || word_is(w, "unsafe")
}

fn keyword_kind_exec(w: &Vec<char>) -> (r: Option<DeclKind>)
    ensures
        r == keyword_kind(w@),
{
    if word_is(w, "struct") {
        Some(DeclKind::Struct)
    } else if word_is(w, "enum") {
        Some(DeclKind::Enum)
    } else if word_is(w, "trait") {
        Some(DeclKind::Trait)
    } else if word_is(w, "mod") {
        Some(DeclKind::Module)
    } else if word_is(w, "const") {
        Some(DeclKind::Constant)
    } else if word_is(w, "type") {
        Some(DeclKind::TypeAlias)
    } else {
        None
    }
}

/// Whether one of the first `q` words is `lit`.
pub(crate) fn has_word(ws: &Vec<Vec<char>>, q: usize, lit: &str) -> (r: bool)
    requires
        q <= ws@.len(),
    ensures
        r == ws@.map_values(|w: Vec<char>| w@).subrange(0, q as int).contains(lit@),
{
    let ghost v = ws@.map_values(|w: Vec<char>| w@);
    let mut i: usize = 0;
    while i < q
        invariant
            i <= q <= ws@.len(),
            v == ws@.map_values(|w: Vec<char>| w@),
            forall|j: int| 0 <= j < i ==> v[j] != lit@,
        decreases q - i,
    {
        if word_is(&ws[i], lit) {
            assert(v.subrange(0, q as int)[i as int] == lit@);
            return true;
        }
        i += 1;
    }
    assert forall|j: int| 0 <= j < q implies v.subrange(0, q as int)[j] != lit@ by {
        assert(v.subrange(0, q as int)[j] == v[j]);
    }
    false
}

/// Classifies one line.
pub fn classify_line_exec(line: &Vec<char>) -> (r: Option<LineDecl>)
    ensures
        match r {
            Some(d) => classify_line(line@) == Some(decl_view(d)),
            None => classify_line(line@) is None,
        },
{
    if line.len() > 0 && (line[0] == ' ' || line[0] == '\t' || line[0] == '\r') {
        return None;
    }
    let ws = words_exec(line, 0, 6);
    let ghost v = ws@.map_values(|w: Vec<char>| w@);
    let mut q: usize = 0;
    while q < ws.len() && is_qualifier_exec(&ws[q])
        invariant
            q <= ws@.len(),
            v == ws@.map_values(|w: Vec<char>| w@),
            first_non_qualifier(v, 0) == first_non_qualifier(v, q as int),
        decreases ws.len() - q,
    {
        q += 1;
    }
    if q < ws.len() && q + 1 < ws.len() && word_is(&ws[q], "fn") {
        let name = string_from_chars(ws[q + 1].as_slice(), 0, ws[q + 1].len());
        proof {
            assert(ws[q + 1 as int]@.subrange(0, ws[q + 1 as int]@.len() as int) =~= ws[q
                + 1 as int]@);
        }
        return Some(
            LineDecl {
                kind: DeclKind::Function,
                name,
                is_pub: has_word(&ws, q, "pub"),
                is_async: has_word(&ws, q, "async"),
                is_const: has_word(&ws, q, "const"),
                is_unsafe: has_word(&ws, q, "unsafe"),
            },
        );
    }
    let p: usize = if ws.len() > 0 && word_is(&ws[0], "pub") {
        1
    } else {
        0
    };
    if p + 1 < ws.len() {
        match keyword_kind_exec(&ws[p]) {
            Some(kind) => {
                let name = string_from_chars(ws[p + 1].as_slice(), 0, ws[p + 1].len());
                proof {
                    assert(ws[p + 1 as int]@.subrange(0, ws[p + 1 as int]@.len() as int) =~= ws[p
                        + 1 as int]@);
                }
                return Some(
                    LineDecl {
                        kind,
                        name,
                        is_pub: p == 1,
                        is_async: false,
                        is_const: false,
                        is_unsafe: false,
                    },
                );
            },
            None => {},
        }
    }
    None
}

} // verus!

verus! {

/// The lines of a text, split at each newline; a text always has at least one line.
pub open spec fn lines_of(t: Seq<char>) -> Seq<Seq<char>>
    decreases t.len(),
{
    if t.len() == 0 {
        seq![seq![]]
    } else if t.last() == '\n' {
        lines_of(t.drop_last()).push(seq![])
    } else {
        let ls = lines_of(t.drop_last());
        ls.update(ls.len() - 1, ls.last().push(t.last()))
    }
}

proof fn lemma_lines_nonempty(t: Seq<char>)
    ensures
        lines_of(t).len() >= 1,
    decreases t.len(),
{
    if t.len() > 0 {
        lemma_lines_nonempty(t.drop_last());
    }
}

/// The declarations of a list of lines, in order.
pub open spec fn decls_of_lines(ls: Seq<Seq<char>>) -> Seq<DeclView>
    decreases ls.len(),
{
    if ls.len() == 0 {
        seq![]
    } else {
        let prev = decls_of_lines(ls.drop_last());
        match classify_line(ls.last()) {
            Some(d) => prev.push(d),
            None => prev,
        }
    }
}

/// The declarations of a text, line by line, in order.
pub open spec fn line_decls(t: Seq<char>) -> Seq<DeclView> {
    decls_of_lines(lines_of(t))
}

/// Appends the declaration of `line`, if it makes one.
fn push_line_decl(out: &mut Vec<LineDecl>, line: &Vec<char>, done: Ghost<Seq<Seq<char>>>)
    requires
        old(out)@.map_values(|d: LineDecl| decl_view(d)) == decls_of_lines(done@),
    ensures
        final(out)@.map_values(|d: LineDecl| decl_view(d)) == decls_of_lines(done@.push(line@)),
{
    proof {
        assert(done@.push(line@).drop_last() =~= done@);
    }
    let ghost before = out@;
    match classify_line_exec(line) {
        Some(d) => {
            out.push(d);
            assert(out@.map_values(|d: LineDecl| decl_view(d)) =~= before.map_values(
                |d: LineDecl| decl_view(d),
            ).push(decl_view(d)));
        },
        None => {},
    }
}

/// The declarations found line by line in `content`.
pub fn scan_decls(content: &str) -> (r: Vec<LineDecl>)
    ensures
        r@.map_values(|d: LineDecl| decl_view(d)) == line_decls(content@),
{
    let cs = chars_of(content);
    let mut out: Vec<LineDecl> = Vec::new();
    let mut cur: Vec<char> = Vec::new();
    let mut i: usize = 0;
    proof {
        assert(out@.map_values(|d: LineDecl| decl_view(d)) =~= decls_of_lines(
            lines_of(cs@.subrange(0, 0)).drop_last(),
        ));
        assert(lines_of(cs@.subrange(0, 0)) == seq![Seq::<char>::empty()]);
    }
    while i < cs.len()
        invariant
            i <= cs@.len(),
            cs@ == content@,
            lines_of(cs@.subrange(0, i as int)).len() >= 1,
            cur@ == lines_of(cs@.subrange(0, i as int)).last(),
            out@.map_values(|d: LineDecl| decl_view(d)) == decls_of_lines(
                lines_of(cs@.subrange(0, i as int)).drop_last(),
            ),
        decreases cs.len() - i,
    {
        let ghost ls = lines_of(cs@.subrange(0, i as int));
        let ghost next = cs@.subrange(0, i + 1);
        proof {
            assert(next.drop_last() =~= cs@.subrange(0, i as int));
            assert(next.last() == cs@[i as int]);
        }
        let c = cs[i];
        if c == '\n' {
            push_line_decl(&mut out, &cur, Ghost(ls.drop_last()));
            proof {
                assert(ls.drop_last().push(cur@) =~= ls);
                assert(lines_of(next).drop_last() =~= ls);
            }
            cur = Vec::new();
        } else {
            cur.push(c);
            proof {
                assert(lines_of(next).drop_last() =~= ls.drop_last());
            }
        }
        i += 1;
    }
    let ghost ls = lines_of(cs@.subrange(0, i as int));
    push_line_decl(&mut out, &cur, Ghost(ls.drop_last()));
    proof {
        assert(ls.drop_last().push(cur@) =~= ls);
        assert(cs@.subrange(0, i as int) =~= content@);
    }
    out
}

} // verus!

verus! {

/// The declarations of one kind, in order.
pub open spec fn decls_of_kind(ds: Seq<DeclView>, k: DeclKind) -> Seq<DeclView>
    decreases ds.len(),
{
    if ds.len() == 0 {
        seq![]
    } else if ds.last().0 == k {
        decls_of_kind(ds.drop_last(), k).push(ds.last())
    } else {
        decls_of_kind(ds.drop_last(), k)
    }
}

/// The entries describe, in order, the declarations of their kind; only
/// names and qualifiers are known.
pub open spec fn scanned_structs(v: Seq<StructInfo>, ds: Seq<DeclView>) -> bool {
    let s = decls_of_kind(ds, DeclKind::Struct);
    &&& v.len() == s.len()
    &&& forall|j: int| 0 <= j < v.len() ==> #[trigger] scanned_structs_entry(v[j], s[j])
}

/// An entry made of one scanned declaration.
pub open spec fn scanned_structs_entry(e: StructInfo, d: DeclView) -> bool {
    e.name@ == d.1 && e.is_pub == d.2 && e.generics@.len() == 0 && e.fields@.len() == 0 && e.derives@.len() == 0
}

/// The entries describe, in order, the declarations of their kind; only
/// names and qualifiers are known.
pub open spec fn scanned_enums(v: Seq<EnumInfo>, ds: Seq<DeclView>) -> bool {
    let s = decls_of_kind(ds, DeclKind::Enum);
    &&& v.len() == s.len()
    &&& forall|j: int| 0 <= j < v.len() ==> #[trigger] scanned_enums_entry(v[j], s[j])
}

/// An entry made of one scanned declaration.
pub open spec fn scanned_enums_entry(e: EnumInfo, d: DeclView) -> bool {
    e.name@ == d.1 && e.is_pub == d.2 && e.generics@.len() == 0 && e.variants@.len() == 0 && e.derives@.len() == 0
}

/// The entries describe, in order, the declarations of their kind; only
/// names and qualifiers are known.
pub open spec fn scanned_traits(v: Seq<TraitInfo>, ds: Seq<DeclView>) -> bool {
    let s = decls_of_kind(ds, DeclKind::Trait);
    &&& v.len() == s.len()
    &&& forall|j: int| 0 <= j < v.len() ==> #[trigger] scanned_traits_entry(v[j], s[j])
}

/// An entry made of one scanned declaration.
pub open spec fn scanned_traits_entry(e: TraitInfo, d: DeclView) -> bool {
    e.name@ == d.1 && e.is_pub == d.2 && e.generics@.len() == 0 && e.methods@.len() == 0
}

/// The entries describe, in order, the declarations of their kind; only
/// names and qualifiers are known.
pub open spec fn scanned_functions(v: Seq<FunctionInfo>, ds: Seq<DeclView>) -> bool {
    let s = decls_of_kind(ds, DeclKind::Function);
    &&& v.len() == s.len()
    &&& forall|j: int| 0 <= j < v.len() ==> #[trigger] scanned_functions_entry(v[j], s[j])
}

/// An entry made of one scanned declaration.
pub open spec fn scanned_functions_entry(e: FunctionInfo, d: DeclView) -> bool {
    e.name@ == d.1 && e.is_pub == d.2 && e.is_async == d.3 && e.is_const == d.4 && e.is_unsafe == d.5 && e.generics@.len() == 0
        && e.params@.len() == 0 && e.return_type is None
}

/// The entries describe, in order, the declarations of their kind; only
/// names and qualifiers are known.
pub open spec fn scanned_modules(v: Seq<ModuleInfo>, ds: Seq<DeclView>) -> bool {
    let s = decls_of_kind(ds, DeclKind::Module);
    &&& v.len() == s.len()
    &&& forall|j: int| 0 <= j < v.len() ==> #[trigger] scanned_modules_entry(v[j], s[j])
}

/// An entry made of one scanned declaration.
pub open spec fn scanned_modules_entry(e: ModuleInfo, d: DeclView) -> bool {
    e.name@ == d.1 && e.is_pub == d.2 && true
}

/// The entries describe, in order, the declarations of their kind; only
/// names and qualifiers are known.
pub open spec fn scanned_constants(v: Seq<ConstantInfo>, ds: Seq<DeclView>) -> bool {
    let s = decls_of_kind(ds, DeclKind::Constant);
    &&& v.len() == s.len()
    &&& forall|j: int| 0 <= j < v.len() ==> #[trigger] scanned_constants_entry(v[j], s[j])
}

/// An entry made of one scanned declaration.
pub open spec fn scanned_constants_entry(e: ConstantInfo, d: DeclView) -> bool {
    e.name@ == d.1 && e.is_pub == d.2 && e.ty is None
}

/// The entries describe, in order, the declarations of their kind; only
/// names and qualifiers are known.
pub open spec fn scanned_types(v: Seq<TypeInfo>, ds: Seq<DeclView>) -> bool {
    let s = decls_of_kind(ds, DeclKind::TypeAlias);
    &&& v.len() == s.len()
    &&& forall|j: int| 0 <= j < v.len() ==> #[trigger] scanned_types_entry(v[j], s[j])
}

/// An entry made of one scanned declaration.
pub open spec fn scanned_types_entry(e: TypeInfo, d: DeclView) -> bool {
    e.name@ == d.1 && e.is_pub == d.2 && true
}

/// What the line scanner makes of a list of declarations: each collection
/// holds, in order, the declarations of its kind; impls and uses are never recovered.
pub open spec fn scanned_record(m: RustMetadata, ds: Seq<DeclView>) -> bool {
    &&& scanned_structs(m.structs@, ds)
    &&& scanned_enums(m.enums@, ds)
    &&& scanned_traits(m.traits@, ds)
    &&& scanned_functions(m.functions@, ds)
    &&& m.impls@.len() == 0
    &&& scanned_modules(m.modules@, ds)
    &&& m.uses@.len() == 0
    &&& scanned_constants(m.constants@, ds)
    &&& scanned_types(m.types@, ds)
}

/// Files each declaration under its kind, keeping their order.
pub fn record_from_decls(ds: &Vec<LineDecl>) -> (r: RustMetadata)
    ensures
        scanned_record(r, ds@.map_values(|d: LineDecl| decl_view(d))),
{
    let ghost all = ds@.map_values(|d: LineDecl| decl_view(d));
    let mut m = RustMetadata::new();
    let mut i: usize = 0;
    while i < ds.len()
        invariant
            i <= ds@.len(),
            all == ds@.map_values(|d: LineDecl| decl_view(d)),
            scanned_record(m, all.subrange(0, i as int)),
        decreases ds.len() - i,
    {
        let ghost prefix = all.subrange(0, i + 1);
        proof {
            assert(prefix.drop_last() =~= all.subrange(0, i as int));
            assert(prefix.last() == decl_view(ds@[i as int]));
        }
        let d = &ds[i];
        match d.kind {
            DeclKind::Struct => m.structs.push(StructInfo { name: d.name.clone(), is_pub: d.is_pub, generics: Vec::new(), fields: Vec::new(), derives: Vec::new() }),
            DeclKind::Enum => m.enums.push(EnumInfo { name: d.name.clone(), is_pub: d.is_pub, generics: Vec::new(), variants: Vec::new(), derives: Vec::new() }),
            DeclKind::Trait => m.traits.push(TraitInfo { name: d.name.clone(), is_pub: d.is_pub, generics: Vec::new(), methods: Vec::new() }),
            DeclKind::Function => m.functions.push(FunctionInfo { name: d.name.clone(), is_pub: d.is_pub, is_async: d.is_async, is_const: d.is_const, is_unsafe: d.is_unsafe, generics: Vec::new(), params: Vec::new(), return_type: None }),
            DeclKind::Module => m.modules.push(ModuleInfo { name: d.name.clone(), is_pub: d.is_pub }),
            DeclKind::Constant => m.constants.push(ConstantInfo { name: d.name.clone(), is_pub: d.is_pub, ty: None }),
            DeclKind::TypeAlias => m.types.push(TypeInfo { name: d.name.clone(), is_pub: d.is_pub }),
        }
        assert(scanned_record(m, prefix));
        i += 1;
    }
    proof {
        assert(all.subrange(0, i as int) =~= all);
    }
    m
}

/// Extracts declarations line by line: every line is classified on its own
/// by its leading words. Never fails: unrecognised lines are skipped.
pub fn scan_lines(content: &str) -> (r: RustMetadata)
    ensures
        scanned_record(r, line_decls(content@)),
{
    let ds = scan_decls(content);
    record_from_decls(&ds)
}

} // verus!
