//! The heuristic tier: declarations found by regular expressions over the
//! raw text, without a grammar. Only names and the qualifiers in front of
//! them are recovered; everything else is left empty.
use vstd::prelude::*;

use crate::scan::{has_word, words_exec, words_from};
use crate::schema::{
    ConstantInfo, EnumInfo, FunctionInfo, ModuleInfo, RustMetadata, StructInfo, TraitInfo, TypeInfo,
};

use crate::text::chars_of;

verus! {

/// One match of a pattern: the text of each capture group, absent where the
/// group did not take part; group 0 is the whole match.
pub type Row = Seq<Option<Seq<char>>>;

/// The rows of all successive non-overlapping matches of `pattern` in `text`.
pub uninterp spec fn regex_captures(pattern: Seq<char>, text: Seq<char>) -> Seq<Row>;

/// The view of one captured group.
pub open spec fn group_view(g: Option<String>) -> Option<Seq<char>> {
    match g {
        Some(s) => Some(s@),
        None => None,
    }
}

/// The view of one match.
pub open spec fn row_view(row: Vec<Option<String>>) -> Row {
    row@.map_values(|g: Option<String>| group_view(g))
}

/// The view of a list of matches.
pub open spec fn rows_view(rows: Seq<Vec<Option<String>>>) -> Seq<Row> {
    rows.map_values(|row: Vec<Option<String>>| row_view(row))
}

/// Relies on `regex::Regex::new`, which compiles `pattern` (`None` where it
/// is rejected: only a pattern that is invalid or over the size limit is, and
/// the patterns of this module are neither), and `regex::Regex::captures_iter`, which yields every
/// successive non-overlapping match in `text` with its capture groups.
#[verifier::external_body]
fn capture_rows(pattern: &str, text: &str) -> (r: Option<Vec<Vec<Option<String>>>>)
    ensures
        r matches Some(rows) ==> rows_view(rows@) == regex_captures(pattern@, text@),
        known_pattern(pattern@) ==> r is Some,
{
    let re = regex::Regex::new(pattern).ok()?;
    Some(
        re.captures_iter(text).map(
            |c| c.iter().map(|m| m.map(|m| m.as_str().to_string())).collect(),
        ).collect(),
    )
}

/// The captured text of group `g`, if the row has such a group and it matched.
pub open spec fn group(row: Row, g: int) -> Option<Seq<char>> {
    if 0 <= g < row.len() {
        row[g]
    } else {
        None
    }
}

/// The rows whose group `g` matched, in order.
pub open spec fn named_rows(rows: Seq<Row>, g: int) -> Seq<Row>
    decreases rows.len(),
{
    if rows.len() == 0 {
        seq![]
    } else if group(rows.last(), g) is Some {
        named_rows(rows.drop_last(), g).push(rows.last())
    } else {
        named_rows(rows.drop_last(), g)
    }
}

proof fn lemma_rows_view_step(rows: Seq<Vec<Option<String>>>, i: int)
    requires
        0 <= i < rows.len(),
    ensures
        rows_view(rows.subrange(0, i + 1)).drop_last() == rows_view(rows.subrange(0, i)),
        rows_view(rows.subrange(0, i + 1)).last() == row_view(rows[i]),
        rows_view(rows.subrange(0, i + 1)).len() == i + 1,
{
    assert(rows_view(rows.subrange(0, i + 1)).drop_last() =~= rows_view(rows.subrange(0, i)));
}

fn group_text(row: &Vec<Option<String>>, g: usize) -> (r: Option<String>)
    ensures
        group_view(r) == group(row_view(*row), g as int),
{
    if g < row.len() {
        match &row[g] {
            Some(s) => Some(s.clone()),
            None => None,
        }
    } else {
        None
    }
}

fn group_present(row: &Vec<Option<String>>, g: usize) -> (r: bool)
    ensures
        r == (group(row_view(*row), g as int) is Some),
{
    g < row.len() && row[g].is_some()
}

} // verus!

verus! {

/// The regular expression that finds struct declarations.
pub open spec fn struct_pattern() -> Seq<char> {
    "(?m)^(pub\\s+)?struct\\s+(\\w+)"@
}

/// An entry that the heuristic tier makes of a matched struct declaration:
/// the name and the qualifiers that were matched, nothing else.
pub open spec fn struct_from_row(e: StructInfo, row: Row) -> bool {
    Some(e.name@) == group(row, 2) && e.is_pub == (group(row, 1) is Some) && e.generics@.len() == 0 && e.fields@.len() == 0
        && e.derives@.len() == 0
}

/// The entries describe, in order, each row whose name group matched.
pub open spec fn structs_from(v: Seq<StructInfo>, rows: Seq<Row>) -> bool {
    let named = named_rows(rows, 2);
    &&& v.len() == named.len()
    &&& forall|i: int| 0 <= i < v.len() ==> #[trigger] struct_from_row(v[i], named[i])
}

/// One struct entry for each row whose name group matched, in row order.
pub fn structs_from_rows(rows: &Vec<Vec<Option<String>>>) -> (r: Vec<StructInfo>)
    ensures
        structs_from(r@, rows_view(rows@)),
{
    let mut r: Vec<StructInfo> = Vec::new();
    let mut i: usize = 0;
    while i < rows.len()
        invariant
            i <= rows@.len(),
            structs_from(r@, rows_view(rows@.subrange(0, i as int))),
        decreases rows.len() - i,
    {
        let row = &rows[i];
        proof {
            lemma_rows_view_step(rows@, i as int);
        }
        match group_text(row, 2) {
            Some(name) => {
                r.push(StructInfo { name, is_pub: group_present(row, 1), generics: Vec::new(), fields: Vec::new(), derives: Vec::new() });
            },
            None => {},
        }
        assert(structs_from(r@, rows_view(rows@.subrange(0, i + 1))));
        i += 1;
    }
    proof {
        assert(rows@.subrange(0, i as int) =~= rows@);
    }
    r
}

/// The regular expression that finds enum declarations.
pub open spec fn enum_pattern() -> Seq<char> {
    "(?m)^(pub\\s+)?enum\\s+(\\w+)"@
}

/// An entry that the heuristic tier makes of a matched enum declaration:
/// the name and the qualifiers that were matched, nothing else.
pub open spec fn enum_from_row(e: EnumInfo, row: Row) -> bool {
    Some(e.name@) == group(row, 2) && e.is_pub == (group(row, 1) is Some) && e.generics@.len() == 0 && e.variants@.len() == 0
        && e.derives@.len() == 0
}

/// The entries describe, in order, each row whose name group matched.
pub open spec fn enums_from(v: Seq<EnumInfo>, rows: Seq<Row>) -> bool {
    let named = named_rows(rows, 2);
    &&& v.len() == named.len()
    &&& forall|i: int| 0 <= i < v.len() ==> #[trigger] enum_from_row(v[i], named[i])
}

/// One enum entry for each row whose name group matched, in row order.
pub fn enums_from_rows(rows: &Vec<Vec<Option<String>>>) -> (r: Vec<EnumInfo>)
    ensures
        enums_from(r@, rows_view(rows@)),
{
    let mut r: Vec<EnumInfo> = Vec::new();
    let mut i: usize = 0;
    while i < rows.len()
        invariant
            i <= rows@.len(),
            enums_from(r@, rows_view(rows@.subrange(0, i as int))),
        decreases rows.len() - i,
    {
        let row = &rows[i];
        proof {
            lemma_rows_view_step(rows@, i as int);
        }
        match group_text(row, 2) {
            Some(name) => {
                r.push(EnumInfo { name, is_pub: group_present(row, 1), generics: Vec::new(), variants: Vec::new(), derives: Vec::new() });
            },
            None => {},
        }
        assert(enums_from(r@, rows_view(rows@.subrange(0, i + 1))));
        i += 1;
    }
    proof {
        assert(rows@.subrange(0, i as int) =~= rows@);
    }
    r
}

/// The regular expression that finds trait declarations.
pub open spec fn trait_pattern() -> Seq<char> {
    "(?m)^(pub\\s+)?trait\\s+(\\w+)"@
}

/// An entry that the heuristic tier makes of a matched trait declaration:
/// the name and the qualifiers that were matched, nothing else.
pub open spec fn trait_from_row(e: TraitInfo, row: Row) -> bool {
    Some(e.name@) == group(row, 2) && e.is_pub == (group(row, 1) is Some) && e.generics@.len() == 0 && e.methods@.len() == 0
}

/// The entries describe, in order, each row whose name group matched.
pub open spec fn traits_from(v: Seq<TraitInfo>, rows: Seq<Row>) -> bool {
    let named = named_rows(rows, 2);
    &&& v.len() == named.len()
    &&& forall|i: int| 0 <= i < v.len() ==> #[trigger] trait_from_row(v[i], named[i])
}

/// One trait entry for each row whose name group matched, in row order.
pub fn traits_from_rows(rows: &Vec<Vec<Option<String>>>) -> (r: Vec<TraitInfo>)
    ensures
        traits_from(r@, rows_view(rows@)),
{
    let mut r: Vec<TraitInfo> = Vec::new();
    let mut i: usize = 0;
    while i < rows.len()
        invariant
            i <= rows@.len(),
            traits_from(r@, rows_view(rows@.subrange(0, i as int))),
        decreases rows.len() - i,
    {
        let row = &rows[i];
        proof {
            lemma_rows_view_step(rows@, i as int);
        }
        match group_text(row, 2) {
            Some(name) => {
                r.push(TraitInfo { name, is_pub: group_present(row, 1), generics: Vec::new(), methods: Vec::new() });
            },
            None => {},
        }
        assert(traits_from(r@, rows_view(rows@.subrange(0, i + 1))));
        i += 1;
    }
    proof {
        assert(rows@.subrange(0, i as int) =~= rows@);
    }
    r
}

/// The regular expression that finds function declarations.
pub open spec fn function_pattern() -> Seq<char> {
    "(?m)^((?:(?:pub|async|const|unsafe)\\s+)*)fn\\s+(\\w+)"@
}

/// The run of qualifiers matched in front of `fn`; empty when none was.
pub open spec fn qualifier_run(row: Row) -> Seq<char> {
    match group(row, 1) {
        Some(t) => t,
        None => seq![],
    }
}

/// Whether `w` is one of the words of a qualifier run.
pub open spec fn run_has(run: Seq<char>, w: Seq<char>) -> bool {
    let ws = words_from(run, 0, run.len() as nat);
    ws.subrange(0, ws.len() as int).contains(w)
}

/// An entry that the heuristic tier makes of a matched function declaration:
/// the name, and a flag for each qualifier in the run, whatever its place.
pub open spec fn function_from_row(e: FunctionInfo, row: Row) -> bool {
    let run = qualifier_run(row);
    &&& Some(e.name@) == group(row, 2)
    &&& e.is_pub == run_has(run, "pub"@)
    &&& e.is_async == run_has(run, "async"@)
    &&& e.is_const == run_has(run, "const"@)
    &&& e.is_unsafe == run_has(run, "unsafe"@)
    &&& e.generics@.len() == 0
    &&& e.params@.len() == 0
    &&& e.return_type is None
}

/// The qualifier flags of a matched function: `pub`, `async`, `const`, `unsafe`.
fn qualifier_flags(row: &Vec<Option<String>>) -> (r: (bool, bool, bool, bool))
    ensures
        r.0 == run_has(qualifier_run(row_view(*row)), "pub"@),
        r.1 == run_has(qualifier_run(row_view(*row)), "async"@),
        r.2 == run_has(qualifier_run(row_view(*row)), "const"@),
        r.3 == run_has(qualifier_run(row_view(*row)), "unsafe"@),
{
    let run = match group_text(row, 1) {
        Some(t) => t,
        None => String::new(),
    };
    let cs = chars_of(run.as_str());
    let ws = words_exec(&cs, 0, cs.len());
    (
        has_word(&ws, ws.len(), "pub"),
        has_word(&ws, ws.len(), "async"),
        has_word(&ws, ws.len(), "const"),
        has_word(&ws, ws.len(), "unsafe"),
    )
}

/// The entries describe, in order, each row whose name group matched.
pub open spec fn functions_from(v: Seq<FunctionInfo>, rows: Seq<Row>) -> bool {
    let named = named_rows(rows, 2);
    &&& v.len() == named.len()
    &&& forall|i: int| 0 <= i < v.len() ==> #[trigger] function_from_row(v[i], named[i])
}

/// One function entry for each row whose name group matched, in row order.
pub fn functions_from_rows(rows: &Vec<Vec<Option<String>>>) -> (r: Vec<FunctionInfo>)
    ensures
        functions_from(r@, rows_view(rows@)),
{
    let mut r: Vec<FunctionInfo> = Vec::new();
    let mut i: usize = 0;
    while i < rows.len()
        invariant
            i <= rows@.len(),
            functions_from(r@, rows_view(rows@.subrange(0, i as int))),
        decreases rows.len() - i,
    {
        let row = &rows[i];
        proof {
            lemma_rows_view_step(rows@, i as int);
        }
        match group_text(row, 2) {
            Some(name) => {
                let (is_pub, is_async, is_const, is_unsafe) = qualifier_flags(row);
                r.push(
                    FunctionInfo {
                        name,
                        is_pub,
                        is_async,
                        is_const,
                        is_unsafe,
                        generics: Vec::new(),
                        params: Vec::new(),
                        return_type: None,
                    },
                );
            },
            None => {},
        }
        assert(functions_from(r@, rows_view(rows@.subrange(0, i + 1))));
        i += 1;
    }
    proof {
        assert(rows@.subrange(0, i as int) =~= rows@);
    }
    r
}

/// The regular expression that finds module declarations.
pub open spec fn module_pattern() -> Seq<char> {
    "(?m)^(pub\\s+)?mod\\s+(\\w+)"@
}

/// An entry that the heuristic tier makes of a matched module declaration:
/// the name and the qualifiers that were matched, nothing else.
pub open spec fn module_from_row(e: ModuleInfo, row: Row) -> bool {
    Some(e.name@) == group(row, 2) && e.is_pub == (group(row, 1) is Some)
}

/// The entries describe, in order, each row whose name group matched.
pub open spec fn modules_from(v: Seq<ModuleInfo>, rows: Seq<Row>) -> bool {
    let named = named_rows(rows, 2);
    &&& v.len() == named.len()
    &&& forall|i: int| 0 <= i < v.len() ==> #[trigger] module_from_row(v[i], named[i])
}

/// One module entry for each row whose name group matched, in row order.
pub fn modules_from_rows(rows: &Vec<Vec<Option<String>>>) -> (r: Vec<ModuleInfo>)
    ensures
        modules_from(r@, rows_view(rows@)),
{
    let mut r: Vec<ModuleInfo> = Vec::new();
    let mut i: usize = 0;
    while i < rows.len()
        invariant
            i <= rows@.len(),
            modules_from(r@, rows_view(rows@.subrange(0, i as int))),
        decreases rows.len() - i,
    {
        let row = &rows[i];
        proof {
            lemma_rows_view_step(rows@, i as int);
        }
        match group_text(row, 2) {
            Some(name) => {
                r.push(ModuleInfo { name, is_pub: group_present(row, 1) });
            },
            None => {},
        }
        assert(modules_from(r@, rows_view(rows@.subrange(0, i + 1))));
        i += 1;
    }
    proof {
        assert(rows@.subrange(0, i as int) =~= rows@);
    }
    r
}

/// The regular expression that finds constant declarations.
pub open spec fn constant_pattern() -> Seq<char> {
    "(?m)^(pub\\s+)?const\\s+(\\w+)\\s*:"@
}

/// An entry that the heuristic tier makes of a matched constant declaration:
/// the name and the qualifiers that were matched, nothing else.
pub open spec fn constant_from_row(e: ConstantInfo, row: Row) -> bool {
    Some(e.name@) == group(row, 2) && e.is_pub == (group(row, 1) is Some) && e.ty is None
}

/// The entries describe, in order, each row whose name group matched.
pub open spec fn constants_from(v: Seq<ConstantInfo>, rows: Seq<Row>) -> bool {
    let named = named_rows(rows, 2);
    &&& v.len() == named.len()
    &&& forall|i: int| 0 <= i < v.len() ==> #[trigger] constant_from_row(v[i], named[i])
}

/// One constant entry for each row whose name group matched, in row order.
pub fn constants_from_rows(rows: &Vec<Vec<Option<String>>>) -> (r: Vec<ConstantInfo>)
    ensures
        constants_from(r@, rows_view(rows@)),
{
    let mut r: Vec<ConstantInfo> = Vec::new();
    let mut i: usize = 0;
    while i < rows.len()
        invariant
            i <= rows@.len(),
            constants_from(r@, rows_view(rows@.subrange(0, i as int))),
        decreases rows.len() - i,
    {
        let row = &rows[i];
        proof {
            lemma_rows_view_step(rows@, i as int);
        }
        match group_text(row, 2) {
            Some(name) => {
                r.push(ConstantInfo { name, is_pub: group_present(row, 1), ty: None });
            },
            None => {},
        }
        assert(constants_from(r@, rows_view(rows@.subrange(0, i + 1))));
        i += 1;
    }
    proof {
        assert(rows@.subrange(0, i as int) =~= rows@);
    }
    r
}

/// The regular expression that finds type alias declarations.
pub open spec fn type_pattern() -> Seq<char> {
    "(?m)^(pub\\s+)?type\\s+(\\w+)"@
}

/// An entry that the heuristic tier makes of a matched type alias declaration:
/// the name and the qualifiers that were matched, nothing else.
pub open spec fn type_from_row(e: TypeInfo, row: Row) -> bool {
    Some(e.name@) == group(row, 2) && e.is_pub == (group(row, 1) is Some)
}

/// The entries describe, in order, each row whose name group matched.
pub open spec fn types_from(v: Seq<TypeInfo>, rows: Seq<Row>) -> bool {
    let named = named_rows(rows, 2);
    &&& v.len() == named.len()
    &&& forall|i: int| 0 <= i < v.len() ==> #[trigger] type_from_row(v[i], named[i])
}

/// One type alias entry for each row whose name group matched, in row order.
pub fn types_from_rows(rows: &Vec<Vec<Option<String>>>) -> (r: Vec<TypeInfo>)
    ensures
        types_from(r@, rows_view(rows@)),
{
    let mut r: Vec<TypeInfo> = Vec::new();
    let mut i: usize = 0;
    while i < rows.len()
        invariant
            i <= rows@.len(),
            types_from(r@, rows_view(rows@.subrange(0, i as int))),
        decreases rows.len() - i,
    {
        let row = &rows[i];
        proof {
            lemma_rows_view_step(rows@, i as int);
        }
        match group_text(row, 2) {
            Some(name) => {
                r.push(TypeInfo { name, is_pub: group_present(row, 1) });
            },
            None => {},
        }
        assert(types_from(r@, rows_view(rows@.subrange(0, i + 1))));
        i += 1;
    }
    proof {
        assert(rows@.subrange(0, i as int) =~= rows@);
    }
    r
}

} // verus!

verus! {

/// The regular expression that finds `use` declarations; group 1 is the path.
pub open spec fn use_pattern() -> Seq<char> {
    "(?m)^use\\s+([^;]+);"@
}

/// The paths are, in order, the path group of each row where it matched.
pub open spec fn uses_from(v: Seq<String>, rows: Seq<Row>) -> bool {
    let named = named_rows(rows, 1);
    &&& v.len() == named.len()
    &&& forall|i: int| 0 <= i < v.len() ==> Some(#[trigger] v[i]@) == group(named[i], 1)
}

/// One path for each row whose path group matched, in row order.
pub fn uses_from_rows(rows: &Vec<Vec<Option<String>>>) -> (r: Vec<String>)
    ensures
        uses_from(r@, rows_view(rows@)),
{
    let mut r: Vec<String> = Vec::new();
    let mut i: usize = 0;
    while i < rows.len()
        invariant
            i <= rows@.len(),
            uses_from(r@, rows_view(rows@.subrange(0, i as int))),
        decreases rows.len() - i,
    {
        proof {
            lemma_rows_view_step(rows@, i as int);
        }
        match group_text(&rows[i], 1) {
            Some(path) => {
                r.push(path);
            },
            None => {},
        }
        assert(uses_from(r@, rows_view(rows@.subrange(0, i + 1))));
        i += 1;
    }
    proof {
        assert(rows@.subrange(0, i as int) =~= rows@);
    }
    r
}

/// The patterns of the heuristic tier, one per kind of declaration.
pub open spec fn known_pattern(p: Seq<char>) -> bool {
    ||| p == struct_pattern()
    ||| p == enum_pattern()
    ||| p == trait_pattern()
    ||| p == function_pattern()
    ||| p == module_pattern()
    ||| p == constant_pattern()
    ||| p == type_pattern()
    ||| p == use_pattern()
}

/// The matches of one of the tier's patterns in `text`.
fn matches_of(pattern: &str, text: &str) -> (r: Vec<Vec<Option<String>>>)
    requires
        known_pattern(pattern@),
    ensures
        rows_view(r@) == regex_captures(pattern@, text@),
{
    match capture_rows(pattern, text) {
        Some(rows) => rows,
        None => unreached(),
    }
}

/// What the heuristic tier makes of `text`: each collection holds, in order,
/// one entry per match of its pattern; impls are never recovered.
pub open spec fn heuristic_record(m: RustMetadata, text: Seq<char>) -> bool {
    &&& structs_from(m.structs@, regex_captures(struct_pattern(), text))
    &&& enums_from(m.enums@, regex_captures(enum_pattern(), text))
    &&& traits_from(m.traits@, regex_captures(trait_pattern(), text))
    &&& functions_from(m.functions@, regex_captures(function_pattern(), text))
    &&& m.impls@.len() == 0
    &&& modules_from(m.modules@, regex_captures(module_pattern(), text))
    &&& uses_from(m.uses@, regex_captures(use_pattern(), text))
    &&& constants_from(m.constants@, regex_captures(constant_pattern(), text))
    &&& types_from(m.types@, regex_captures(type_pattern(), text))
}

/// Extracts declarations from `content` by pattern matching. Never fails:
/// what cannot be recognised is left out.
pub fn parse_with_regex(content: &str) -> (r: RustMetadata)
    ensures
        heuristic_record(r, content@),
{
    let mut m = RustMetadata::new();
    m.structs = structs_from_rows(&matches_of("(?m)^(pub\\s+)?struct\\s+(\\w+)", content));
    m.enums = enums_from_rows(&matches_of("(?m)^(pub\\s+)?enum\\s+(\\w+)", content));
    m.traits = traits_from_rows(&matches_of("(?m)^(pub\\s+)?trait\\s+(\\w+)", content));
    m.functions = functions_from_rows(
        &matches_of("(?m)^((?:(?:pub|async|const|unsafe)\\s+)*)fn\\s+(\\w+)", content),
    );
    m.uses = uses_from_rows(&matches_of("(?m)^use\\s+([^;]+);", content));
    m.modules = modules_from_rows(&matches_of("(?m)^(pub\\s+)?mod\\s+(\\w+)", content));
    m.constants = constants_from_rows(&matches_of("(?m)^(pub\\s+)?const\\s+(\\w+)\\s*:", content));
    m.types = types_from_rows(&matches_of("(?m)^(pub\\s+)?type\\s+(\\w+)", content));
    m
}

} // verus!
