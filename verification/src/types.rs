//! Type names across languages, field sizes, and the payload layout of a request.
use crate::signature::pair_views;
use crate::text::{chars_of, is_text, trim, trim_chars};
use vstd::prelude::*;

verus! {

/// The Rust type a stub uses for a source type name.
pub open spec fn rust_type_for(ty: Seq<char>) -> Seq<char> {
    let t = trim(ty);
    if t == "int"@ || t == "Int"@ || t == "i32"@ || t == "i64"@ {
        "i64"@
    } else if t == "float"@ || t == "Float"@ || t == "f32"@ || t == "f64"@ {
        "f64"@
    } else if t == "str"@ || t == "String"@ || t == "string"@ {
        "String"@
    } else if t == "bool"@ || t == "Bool"@ {
        "bool"@
    } else if t == "bytes"@ || t == "Data"@ {
        "Vec<u8>"@
    } else {
        "String"@
    }
}

/// The Python type a stub uses for a source type name.
pub open spec fn python_type_for(ty: Seq<char>) -> Seq<char> {
    let t = trim(ty);
    if t == "int"@ || t == "Int"@ || t == "i32"@ || t == "i64"@ {
        "int"@
    } else if t == "float"@ || t == "Float"@ || t == "f32"@ || t == "f64"@ {
        "float"@
    } else if t == "str"@ || t == "String"@ || t == "string"@ {
        "str"@
    } else if t == "bool"@ || t == "Bool"@ {
        "bool"@
    } else if t == "bytes"@ || t == "Data"@ {
        "bytes"@
    } else {
        "Any"@
    }
}

/// The C type a stub uses for a source type name. The capitalized names are
/// those of the memory specification's type table.
pub open spec fn c_type_for(ty: Seq<char>) -> Seq<char> {
    let t = trim(ty);
    if t == "int"@ || t == "i32"@ {
        "int32_t"@
    } else if t == "Int"@ || t == "i64"@ || t == "long"@ {
        "int64_t"@
    } else if t == "float"@ || t == "f32"@ {
        "float"@
    } else if t == "Float"@ || t == "f64"@ || t == "double"@ {
        "double"@
    } else if t == "str"@ || t == "String"@ || t == "string"@ {
        "const char*"@
    } else if t == "bool"@ || t == "Bool"@ || t == "UInt[8]"@ {
        "uint8_t"@
    } else if t == "UInt[16]"@ {
        "uint16_t"@
    } else if t == "UInt[32]"@ {
        "uint32_t"@
    } else if t == "UInt[64]"@ {
        "uint64_t"@
    } else if t == "Data"@ || t == "bytes"@ {
        "const uint8_t*"@
    } else {
        "void*"@
    }
}

/// The number of payload bytes a value of a type takes. The capitalized names
/// are sized as the memory specification's type table sizes them.
pub open spec fn type_size(ty: Seq<char>) -> nat {
    let t = trim(ty);
    if t == "bool"@ || t == "Bool"@ || t == "uint8_t"@ || t == "int8_t"@ || t == "UInt[8]"@ {
        1
    } else if t == "uint16_t"@ || t == "int16_t"@ || t == "UInt[16]"@ {
        2
    } else if t == "int32_t"@ || t == "int"@ || t == "i32"@ || t == "float"@ || t == "f32"@ || t
        == "uint32_t"@ || t == "UInt[32]"@ {
        4
    } else if t == "Int"@ || t == "Float"@ || t == "i64"@ || t == "int64_t"@ || t == "f64"@ || t
        == "double"@ || t == "uint64_t"@ || t == "UInt[64]"@ {
        8
    } else if t == "str"@ || t == "String"@ || t == "string"@ || t == "const char*"@ {
        256
    } else if t == "Data"@ || t == "bytes"@ || t == "const uint8_t*"@ {
        4096
    } else {
        4
    }
}

/// Map a source type name to the Rust type used in stubs.
pub fn type_to_rust(ty: &str) -> (r: &'static str)
    ensures
        r@ == rust_type_for(ty@),
{
    let t = trim_chars(&chars_of(ty));
    if is_text(&t, "int") || is_text(&t, "Int") || is_text(&t, "i32") || is_text(&t, "i64") {
        "i64"
    } else if is_text(&t, "float") || is_text(&t, "Float") || is_text(&t, "f32") || is_text(
        &t,
        "f64",
    ) {
        "f64"
    } else if is_text(&t, "str") || is_text(&t, "String") || is_text(&t, "string") {
        "String"
    } else if is_text(&t, "bool") || is_text(&t, "Bool") {
        "bool"
    } else if is_text(&t, "bytes") || is_text(&t, "Data") {
        "Vec<u8>"
    } else {
        "String"
    }
}

/// Map a source type name to the Python type used in stubs.
pub fn type_to_python(ty: &str) -> (r: &'static str)
    ensures
        r@ == python_type_for(ty@),
{
    let t = trim_chars(&chars_of(ty));
    if is_text(&t, "int") || is_text(&t, "Int") || is_text(&t, "i32") || is_text(&t, "i64") {
        "int"
    } else if is_text(&t, "float") || is_text(&t, "Float") || is_text(&t, "f32") || is_text(
        &t,
        "f64",
    ) {
        "float"
    } else if is_text(&t, "str") || is_text(&t, "String") || is_text(&t, "string") {
        "str"
    } else if is_text(&t, "bool") || is_text(&t, "Bool") {
        "bool"
    } else if is_text(&t, "bytes") || is_text(&t, "Data") {
        "bytes"
    } else {
        "Any"
    }
}

/// Map a source type name to the C type used in stubs.
pub fn type_to_c(ty: &str) -> (r: &'static str)
    ensures
        r@ == c_type_for(ty@),
{
    let t = trim_chars(&chars_of(ty));
    if is_text(&t, "int") || is_text(&t, "i32") {
        "int32_t"
    } else if is_text(&t, "Int") || is_text(&t, "i64") || is_text(&t, "long") {
        "int64_t"
    } else if is_text(&t, "float") || is_text(&t, "f32") {
        "float"
    } else if is_text(&t, "Float") || is_text(&t, "f64") || is_text(&t, "double") {
        "double"
    } else if is_text(&t, "str") || is_text(&t, "String") || is_text(&t, "string") {
        "const char*"
    } else if is_text(&t, "bool") || is_text(&t, "Bool") || is_text(&t, "UInt[8]") {
        "uint8_t"
    } else if is_text(&t, "UInt[16]") {
        "uint16_t"
    } else if is_text(&t, "UInt[32]") {
        "uint32_t"
    } else if is_text(&t, "UInt[64]") {
        "uint64_t"
    } else if is_text(&t, "Data") || is_text(&t, "bytes") {
        "const uint8_t*"
    } else {
        "void*"
    }
}

/// The number of payload bytes a value of the given type takes.
pub fn type_size_bytes(ty: &str) -> (size: usize)
    ensures
        size == type_size(ty@),
{
    let t = trim_chars(&chars_of(ty));
    if is_text(&t, "bool") || is_text(&t, "Bool") || is_text(&t, "uint8_t") || is_text(
        &t,
        "int8_t",
    ) || is_text(&t, "UInt[8]") {
        1
    } else if is_text(&t, "uint16_t") || is_text(&t, "int16_t") || is_text(&t, "UInt[16]") {
        2
    } else if is_text(&t, "int32_t") || is_text(&t, "int") || is_text(&t, "i32") || is_text(
        &t,
        "float",
    ) || is_text(&t, "f32") || is_text(&t, "uint32_t") || is_text(&t, "UInt[32]") {
        4
    } else if is_text(&t, "Int") || is_text(&t, "Float") || is_text(&t, "i64") || is_text(
        &t,
        "int64_t",
    ) || is_text(&t, "f64") || is_text(&t, "double") || is_text(&t, "uint64_t") || is_text(
        &t,
        "UInt[64]",
    ) {
        8
    } else if is_text(&t, "str") || is_text(&t, "String") || is_text(&t, "string") || is_text(
        &t,
        "const char*",
    ) {
        256
    } else if is_text(&t, "Data") || is_text(&t, "bytes") || is_text(&t, "const uint8_t*") {
        4096
    } else {
        4
    }
}

/// The file extension of a stub for a target language.
pub open spec fn target_extension(lang: Seq<char>) -> Seq<char> {
    if lang == "c"@ || lang == "c-direct"@ {
        "h"@
    } else if lang == "c-linker"@ {
        "h"@
    } else if lang == "rust"@ {
        "rs"@
    } else if lang == "go"@ {
        "go"@
    } else if lang == "java"@ {
        "java"@
    } else if lang == "csharp"@ {
        "cs"@
    } else if lang == "ruby"@ {
        "rb"@
    } else if lang == "js"@ {
        "js"@
    } else if lang == "python"@ {
        "py"@
    } else if lang == "bash"@ {
        "sh"@
    } else {
        "txt"@
    }
}

/// The file extension of a stub for a target language.
pub fn ext_for_target(lang: &str) -> (ext: &'static str)
    ensures
        ext@ == target_extension(lang@),
{
    let l = chars_of(lang);
    if is_text(&l, "c") || is_text(&l, "c-direct") {
        "h"
    } else if is_text(&l, "c-linker") {
        "h"
    } else if is_text(&l, "rust") {
        "rs"
    } else if is_text(&l, "go") {
        "go"
    } else if is_text(&l, "java") {
        "java"
    } else if is_text(&l, "csharp") {
        "cs"
    } else if is_text(&l, "ruby") {
        "rb"
    } else if is_text(&l, "js") {
        "js"
    } else if is_text(&l, "python") {
        "py"
    } else if is_text(&l, "bash") {
        "sh"
    } else {
        "txt"
    }
}

/// `n` rounded up to a multiple of four.
pub open spec fn align4(n: int) -> int {
    (n + 3) / 4 * 4
}

/// The payload layout of fields with the given types: each field starts at the
/// end of the one before it, rounded up to a multiple of four. The result holds
/// the (offset, size) of each field and the end of the last one.
pub open spec fn layout(types: Seq<Seq<char>>) -> (Seq<(int, int)>, int)
    decreases types.len(),
{
    if types.len() == 0 {
        (Seq::empty(), 0)
    } else {
        let (fields, end) = layout(types.drop_last());
        let offset = align4(end);
        let size = type_size(types.last()) as int;
        (fields.push((offset, size)), offset + size)
    }
}

/// The type names of a parameter list.
pub open spec fn param_types(params: Seq<(Seq<char>, Seq<char>)>) -> Seq<Seq<char>> {
    params.map_values(|p: (Seq<char>, Seq<char>)| p.1)
}

/// The end of the layout of a prefix of the types is no later than the end of the whole.
pub proof fn lemma_layout_end_grows(types: Seq<Seq<char>>, k: int)
    requires
        0 <= k <= types.len(),
    ensures
        0 <= layout(types.take(k)).1 <= layout(types).1,
    decreases types.len() - k,
{
    if k < types.len() {
        lemma_layout_end_grows(types, k + 1);
        let t = types.take(k + 1);
        assert(t.drop_last() =~= types.take(k));
    } else {
        assert(types.take(k) =~= types);
    }
    lemma_layout_end_nonneg(types.take(k));
}

/// A layout has one field per type and does not end before 0.
pub proof fn lemma_layout_end_nonneg(types: Seq<Seq<char>>)
    ensures
        layout(types).1 >= 0,
        layout(types).0.len() == types.len(),
    decreases types.len(),
{
    if types.len() > 0 {
        lemma_layout_end_nonneg(types.drop_last());
    }
}

/// Compute byte offsets for each parameter in a zero-copy buffer layout.
/// Returns (offset, size) pairs for each param, and the total request size.
pub fn compute_layout(params: &[(String, String)]) -> (r: (Vec<(usize, usize)>, usize))
    requires
        layout(param_types(pair_views(params@))).1 + 3 <= usize::MAX,
    ensures
        r.0@.len() == params@.len(),
        forall|i: int|
            0 <= i < r.0@.len() ==> (r.0@[i].0 as int, r.0@[i].1 as int) == layout(
                param_types(pair_views(params@)),
            ).0[i],
        r.1 == layout(param_types(pair_views(params@))).1,
{
    let ghost types = param_types(pair_views(params@));
    let mut offset: usize = 0;
    let mut fields: Vec<(usize, usize)> = Vec::new();
    let mut k: usize = 0;
    assert(types.take(0) =~= Seq::<Seq<char>>::empty());
    while k < params.len()
        invariant
            k <= params@.len(),
            types == param_types(pair_views(params@)),
            types.len() == params@.len(),
            layout(types).1 + 3 <= usize::MAX,
            fields@.len() == k,
            offset == layout(types.take(k as int)).1,
            forall|i: int|
                0 <= i < k ==> (fields@[i].0 as int, fields@[i].1 as int) == layout(
                    types.take(k as int),
                ).0[i],
        decreases params@.len() - k,
    {
        proof {
            lemma_layout_end_grows(types, k as int);
            lemma_layout_end_grows(types, k + 1);
            lemma_layout_end_nonneg(types.take(k as int));
        }
        let ghost next = types.take(k + 1);
        assert(next.drop_last() =~= types.take(k as int));
        assert(next.last() == params@[k as int].1@);
        let size = type_size_bytes(params[k].1.as_str());
        let aligned = (offset + 3) / 4 * 4;
        fields.push((aligned, size));
        offset = aligned + size;
        k = k + 1;
    }
    assert(types.take(k as int) =~= types);
    (fields, offset)
}

/// Whether the request layout of `params`, and the rounding after its last
/// field, stay within `usize`.
pub fn layout_fits(params: &[(String, String)]) -> (b: bool)
    ensures
        b == (layout(param_types(pair_views(params@))).1 + 3 <= usize::MAX),
{
    let ghost types = param_types(pair_views(params@));
    let mut offset: usize = 0;
    let mut k: usize = 0;
    while k < params.len()
        invariant
            k <= params@.len(),
            types == param_types(pair_views(params@)),
            types.len() == params@.len(),
            offset == layout(types.take(k as int)).1,
        decreases params@.len() - k,
    {
        proof {
            lemma_layout_end_grows(types, k as int);
            lemma_layout_end_grows(types, k + 1);
        }
        let ghost next = types.take(k + 1);
        assert(next.drop_last() =~= types.take(k as int));
        assert(next.last() == params@[k as int].1@);
        if offset > usize::MAX - 3 {
            return false;
        }
        let aligned = (offset + 3) / 4 * 4;
        let size = type_size_bytes(params[k].1.as_str());
        if aligned > usize::MAX - size {
            return false;
        }
        offset = aligned + size;
        k = k + 1;
    }
    assert(types.take(k as int) =~= types);
    offset <= usize::MAX - 3
}

/// The laws of the request layout: one field per parameter, each field starts
/// at a multiple of four, fields follow each other without overlapping, and the
/// total size is where the last field ends.
pub proof fn law_layout_aligned_and_disjoint(types: Seq<Seq<char>>)
    ensures
        layout(types).0.len() == types.len(),
        forall|i: int| 0 <= i < types.len() ==> #[trigger] layout(types).0[i].0 % 4 == 0,
        forall|i: int|
            0 <= i < types.len() ==> #[trigger] layout(types).0[i].1 == type_size(types[i]),
        forall|i: int|
            0 <= i < types.len() - 1 ==> #[trigger] layout(types).0[i].0 + layout(types).0[i].1
                <= layout(types).0[i + 1].0,
        types.len() == 0 ==> layout(types).1 == 0,
        types.len() > 0 ==> layout(types).1 == layout(types).0[types.len() - 1].0 + layout(
            types,
        ).0[types.len() - 1].1,
        forall|i: int| 0 <= i < types.len() ==> 0 <= #[trigger] layout(types).0[i].0,
    decreases types.len(),
{
    if types.len() > 0 {
        let prev = types.drop_last();
        law_layout_aligned_and_disjoint(prev);
        lemma_layout_end_nonneg(prev);
        let (fields, end) = layout(prev);
        let offset = align4(end);
        assert(offset % 4 == 0 && offset >= end) by (nonlinear_arith)
            requires
                offset == (end + 3) / 4 * 4,
                end >= 0,
        ;
        assert forall|i: int| 0 <= i < types.len() - 1 implies #[trigger] layout(types).0[i].1
            == type_size(types[i]) by {
            assert(prev[i] == types[i]);
        }
    }
}

/// Adding a parameter moves no earlier one: the layout of `params` with `p`
/// appended keeps every earlier field where it was, and puts the new field at
/// the old end rounded up to a multiple of four, with the size of its type.
pub proof fn law_layout_append_keeps_offsets(
    params: Seq<(Seq<char>, Seq<char>)>,
    p: (Seq<char>, Seq<char>),
)
    ensures
        layout(param_types(params.push(p))).0.len() == params.len() + 1,
        forall|i: int|
            0 <= i < params.len() ==> #[trigger] layout(param_types(params.push(p))).0[i]
                == layout(param_types(params)).0[i],
        layout(param_types(params.push(p))).0[params.len() as int] == (
            align4(layout(param_types(params)).1),
            type_size(p.1) as int,
        ),
        layout(param_types(params.push(p))).1 == align4(layout(param_types(params)).1)
            + type_size(p.1),
        layout(param_types(params.push(p))).1 >= layout(param_types(params)).1,
{
    let types = param_types(params.push(p));
    assert(types.drop_last() =~= param_types(params));
    assert(types.last() == p.1);
    lemma_layout_end_nonneg(param_types(params));
    let end = layout(param_types(params)).1;
    assert(align4(end) >= end) by (nonlinear_arith)
        requires
            end >= 0,
    {
        assert((end + 3) / 4 * 4 >= end);
    }
}

/// The C type of a source type depends on what the type is, not on which
/// language named it: every 64-bit float name (`f64`, `double`, `Float`) is a
/// `double`, every 32-bit float name a `float`, every 64-bit integer name an
/// `int64_t`, every 32-bit integer name an `int32_t`, every text name a
/// `const char*` and every boolean name a `uint8_t`.
pub proof fn law_c_type_by_kind(ty: Seq<char>)
    ensures
        trim(ty) == "f64"@ || trim(ty) == "double"@ || trim(ty) == "Float"@ ==> c_type_for(ty)
            == "double"@,
        trim(ty) == "f32"@ || trim(ty) == "float"@ ==> c_type_for(ty) == "float"@,
        trim(ty) == "i64"@ || trim(ty) == "Int"@ || trim(ty) == "long"@ ==> c_type_for(ty)
            == "int64_t"@,
        trim(ty) == "i32"@ || trim(ty) == "int"@ ==> c_type_for(ty) == "int32_t"@,
        trim(ty) == "str"@ || trim(ty) == "String"@ || trim(ty) == "string"@ ==> c_type_for(ty)
            == "const char*"@,
        trim(ty) == "bool"@ || trim(ty) == "Bool"@ ==> c_type_for(ty) == "uint8_t"@,
{
    reveal_strlit("int");
    reveal_strlit("i32");
    reveal_strlit("Int");
    reveal_strlit("i64");
    reveal_strlit("long");
    reveal_strlit("float");
    reveal_strlit("f32");
    reveal_strlit("Float");
    reveal_strlit("f64");
    reveal_strlit("double");
    reveal_strlit("str");
    reveal_strlit("String");
    reveal_strlit("string");
    reveal_strlit("bool");
    reveal_strlit("Bool");
    reveal_strlit("UInt[8]");
    reveal_strlit("UInt[16]");
    reveal_strlit("UInt[32]");
    reveal_strlit("UInt[64]");
    reveal_strlit("Data");
    reveal_strlit("bytes");
    assert("f64"@[0] != "int"@[0]);
    assert("f64"@[0] != "i32"@[0]);
    assert("f64"@[0] != "Int"@[0]);
    assert("f64"@[0] != "i64"@[0]);
    assert("f64"@[1] != "f32"@[1]);
    assert("f64"@[0] != "str"@[0]);
    assert("double"@[0] != "String"@[0]);
    assert("double"@[0] != "string"@[0]);
    assert("Float"@[0] != "float"@[0]);
    assert("Float"@[0] != "bytes"@[0]);
    assert("f32"@[0] != "int"@[0]);
    assert("f32"@[0] != "i32"@[0]);
    assert("f32"@[0] != "Int"@[0]);
    assert("f32"@[0] != "i64"@[0]);
    assert("f32"@[1] != "f64"@[1]);
    assert("f32"@[0] != "str"@[0]);
    assert("float"@[0] != "Float"@[0]);
    assert("float"@[0] != "bytes"@[0]);
    assert("i64"@[1] != "int"@[1]);
    assert("i64"@[1] != "i32"@[1]);
    assert("i64"@[0] != "Int"@[0]);
    assert("i64"@[0] != "f32"@[0]);
    assert("i64"@[0] != "f64"@[0]);
    assert("i64"@[0] != "str"@[0]);
    assert("Int"@[0] != "int"@[0]);
    assert("Int"@[0] != "i32"@[0]);
    assert("Int"@[0] != "i64"@[0]);
    assert("Int"@[0] != "f32"@[0]);
    assert("Int"@[0] != "f64"@[0]);
    assert("Int"@[0] != "str"@[0]);
    assert("long"@[0] != "bool"@[0]);
    assert("long"@[0] != "Bool"@[0]);
    assert("long"@[0] != "Data"@[0]);
    assert("i32"@[1] != "int"@[1]);
    assert("i32"@[0] != "Int"@[0]);
    assert("i32"@[1] != "i64"@[1]);
    assert("i32"@[0] != "f32"@[0]);
    assert("i32"@[0] != "f64"@[0]);
    assert("i32"@[0] != "str"@[0]);
    assert("int"@[1] != "i32"@[1]);
    assert("int"@[0] != "Int"@[0]);
    assert("int"@[1] != "i64"@[1]);
    assert("int"@[0] != "f32"@[0]);
    assert("int"@[0] != "f64"@[0]);
    assert("int"@[0] != "str"@[0]);
    assert("str"@[0] != "int"@[0]);
    assert("str"@[0] != "i32"@[0]);
    assert("str"@[0] != "Int"@[0]);
    assert("str"@[0] != "i64"@[0]);
    assert("str"@[0] != "f32"@[0]);
    assert("str"@[0] != "f64"@[0]);
    assert("String"@[0] != "double"@[0]);
    assert("String"@[0] != "string"@[0]);
    assert("string"@[0] != "double"@[0]);
    assert("string"@[0] != "String"@[0]);
    assert("bool"@[0] != "long"@[0]);
    assert("bool"@[0] != "Bool"@[0]);
    assert("bool"@[0] != "Data"@[0]);
    assert("Bool"@[0] != "long"@[0]);
    assert("Bool"@[0] != "bool"@[0]);
    assert("Bool"@[0] != "Data"@[0]);
}

/// The Rust type of a source type depends on what the type is: every float
/// name is an `f64`, every integer name an `i64`, every text name a `String`
/// and every boolean name a `bool`.
pub proof fn law_rust_type_by_kind(ty: Seq<char>)
    ensures
        trim(ty) == "f64"@ || trim(ty) == "f32"@ || trim(ty) == "float"@ || trim(ty) == "Float"@
            ==> rust_type_for(ty) == "f64"@,
        trim(ty) == "i64"@ || trim(ty) == "i32"@ || trim(ty) == "int"@ || trim(ty) == "Int"@
            ==> rust_type_for(ty) == "i64"@,
        trim(ty) == "str"@ || trim(ty) == "String"@ || trim(ty) == "string"@ ==> rust_type_for(ty)
            == "String"@,
        trim(ty) == "bool"@ || trim(ty) == "Bool"@ ==> rust_type_for(ty) == "bool"@,
{
    reveal_strlit("int");
    reveal_strlit("Int");
    reveal_strlit("i32");
    reveal_strlit("i64");
    reveal_strlit("float");
    reveal_strlit("Float");
    reveal_strlit("f32");
    reveal_strlit("f64");
    reveal_strlit("str");
    reveal_strlit("String");
    reveal_strlit("string");
    reveal_strlit("bool");
    reveal_strlit("Bool");
    reveal_strlit("bytes");
    reveal_strlit("Data");
    assert("f64"@[0] != "int"@[0]);
    assert("f64"@[0] != "Int"@[0]);
    assert("f64"@[0] != "i32"@[0]);
    assert("f64"@[0] != "i64"@[0]);
    assert("f64"@[1] != "f32"@[1]);
    assert("f64"@[0] != "str"@[0]);
    assert("f32"@[0] != "int"@[0]);
    assert("f32"@[0] != "Int"@[0]);
    assert("f32"@[0] != "i32"@[0]);
    assert("f32"@[0] != "i64"@[0]);
    assert("f32"@[1] != "f64"@[1]);
    assert("f32"@[0] != "str"@[0]);
    assert("float"@[0] != "Float"@[0]);
    assert("float"@[0] != "bytes"@[0]);
    assert("Float"@[0] != "float"@[0]);
    assert("Float"@[0] != "bytes"@[0]);
    assert("i64"@[1] != "int"@[1]);
    assert("i64"@[0] != "Int"@[0]);
    assert("i64"@[1] != "i32"@[1]);
    assert("i64"@[0] != "f32"@[0]);
    assert("i64"@[0] != "f64"@[0]);
    assert("i64"@[0] != "str"@[0]);
    assert("i32"@[1] != "int"@[1]);
    assert("i32"@[0] != "Int"@[0]);
    assert("i32"@[1] != "i64"@[1]);
    assert("i32"@[0] != "f32"@[0]);
    assert("i32"@[0] != "f64"@[0]);
    assert("i32"@[0] != "str"@[0]);
    assert("int"@[0] != "Int"@[0]);
    assert("int"@[1] != "i32"@[1]);
    assert("int"@[1] != "i64"@[1]);
    assert("int"@[0] != "f32"@[0]);
    assert("int"@[0] != "f64"@[0]);
    assert("int"@[0] != "str"@[0]);
    assert("Int"@[0] != "int"@[0]);
    assert("Int"@[0] != "i32"@[0]);
    assert("Int"@[0] != "i64"@[0]);
    assert("Int"@[0] != "f32"@[0]);
    assert("Int"@[0] != "f64"@[0]);
    assert("Int"@[0] != "str"@[0]);
    assert("str"@[0] != "int"@[0]);
    assert("str"@[0] != "Int"@[0]);
    assert("str"@[0] != "i32"@[0]);
    assert("str"@[0] != "i64"@[0]);
    assert("str"@[0] != "f32"@[0]);
    assert("str"@[0] != "f64"@[0]);
    assert("String"@[0] != "string"@[0]);
    assert("string"@[0] != "String"@[0]);
    assert("bool"@[0] != "Bool"@[0]);
    assert("bool"@[0] != "Data"@[0]);
    assert("Bool"@[0] != "bool"@[0]);
    assert("Bool"@[0] != "Data"@[0]);
}

/// The payload sizes of the memory specification's type table: `Bool` one
/// byte, `Int` and `Float` eight, `String` 256, and `UInt[n]` n / 8 bytes.
pub proof fn law_type_sizes_of_the_table(ty: Seq<char>)
    ensures
        trim(ty) == "Bool"@ || trim(ty) == "UInt[8]"@ ==> type_size(ty) == 1,
        trim(ty) == "UInt[16]"@ ==> type_size(ty) == 2,
        trim(ty) == "UInt[32]"@ ==> type_size(ty) == 4,
        trim(ty) == "Int"@ || trim(ty) == "Float"@ || trim(ty) == "UInt[64]"@ ==> type_size(ty) == 8,
        trim(ty) == "String"@ ==> type_size(ty) == 256,
{
    reveal_strlit("bool");
    reveal_strlit("Bool");
    reveal_strlit("uint8_t");
    reveal_strlit("int8_t");
    reveal_strlit("UInt[8]");
    reveal_strlit("uint16_t");
    reveal_strlit("int16_t");
    reveal_strlit("UInt[16]");
    reveal_strlit("int32_t");
    reveal_strlit("int");
    reveal_strlit("i32");
    reveal_strlit("float");
    reveal_strlit("f32");
    reveal_strlit("uint32_t");
    reveal_strlit("UInt[32]");
    reveal_strlit("Int");
    reveal_strlit("Float");
    reveal_strlit("i64");
    reveal_strlit("int64_t");
    reveal_strlit("f64");
    reveal_strlit("double");
    reveal_strlit("uint64_t");
    reveal_strlit("UInt[64]");
    reveal_strlit("str");
    reveal_strlit("String");
    reveal_strlit("string");
    reveal_strlit("const char*");
    reveal_strlit("Data");
    reveal_strlit("bytes");
    reveal_strlit("const uint8_t*");
    assert("Bool"@[0] != "bool"@[0]);
    assert("Bool"@[0] != "Data"@[0]);
    assert("UInt[8]"@[0] != "uint8_t"@[0]);
    assert("UInt[8]"@[0] != "int16_t"@[0]);
    assert("UInt[8]"@[0] != "int32_t"@[0]);
    assert("UInt[8]"@[0] != "int64_t"@[0]);
    assert("UInt[16]"@[0] != "uint16_t"@[0]);
    assert("UInt[16]"@[0] != "uint32_t"@[0]);
    assert("UInt[16]"@[5] != "UInt[32]"@[5]);
    assert("UInt[16]"@[0] != "uint64_t"@[0]);
    assert("UInt[16]"@[5] != "UInt[64]"@[5]);
    assert("UInt[32]"@[0] != "uint16_t"@[0]);
    assert("UInt[32]"@[5] != "UInt[16]"@[5]);
    assert("UInt[32]"@[0] != "uint32_t"@[0]);
    assert("UInt[32]"@[0] != "uint64_t"@[0]);
    assert("UInt[32]"@[5] != "UInt[64]"@[5]);
    assert("Int"@[0] != "int"@[0]);
    assert("Int"@[0] != "i32"@[0]);
    assert("Int"@[0] != "f32"@[0]);
    assert("Int"@[0] != "i64"@[0]);
    assert("Int"@[0] != "f64"@[0]);
    assert("Int"@[0] != "str"@[0]);
    assert("Float"@[0] != "float"@[0]);
    assert("Float"@[0] != "bytes"@[0]);
    assert("UInt[64]"@[0] != "uint16_t"@[0]);
    assert("UInt[64]"@[5] != "UInt[16]"@[5]);
    assert("UInt[64]"@[0] != "uint32_t"@[0]);
    assert("UInt[64]"@[5] != "UInt[32]"@[5]);
    assert("UInt[64]"@[0] != "uint64_t"@[0]);
    assert("String"@[0] != "int8_t"@[0]);
    assert("String"@[0] != "double"@[0]);
    assert("String"@[0] != "string"@[0]);
}

/// The Python type of a source type depends on what the type is: every float
/// name is a `float`, every integer name an `int`, every text name a `str` and
/// every boolean name a `bool`.
pub proof fn law_python_type_by_kind(ty: Seq<char>)
    ensures
        trim(ty) == "f64"@ || trim(ty) == "f32"@ || trim(ty) == "float"@ || trim(ty) == "Float"@
            ==> python_type_for(ty) == "float"@,
        trim(ty) == "i64"@ || trim(ty) == "i32"@ || trim(ty) == "int"@ || trim(ty) == "Int"@
            ==> python_type_for(ty) == "int"@,
        trim(ty) == "str"@ || trim(ty) == "String"@ || trim(ty) == "string"@ ==> python_type_for(ty)
            == "str"@,
        trim(ty) == "bool"@ || trim(ty) == "Bool"@ ==> python_type_for(ty) == "bool"@,
{
    reveal_strlit("int");
    reveal_strlit("Int");
    reveal_strlit("i32");
    reveal_strlit("i64");
    reveal_strlit("float");
    reveal_strlit("Float");
    reveal_strlit("f32");
    reveal_strlit("f64");
    reveal_strlit("str");
    reveal_strlit("String");
    reveal_strlit("string");
    reveal_strlit("bool");
    reveal_strlit("Bool");
    reveal_strlit("bytes");
    reveal_strlit("Data");
    assert("f64"@[0] != "int"@[0]);
    assert("f64"@[0] != "Int"@[0]);
    assert("f64"@[0] != "i32"@[0]);
    assert("f64"@[0] != "i64"@[0]);
    assert("f64"@[1] != "f32"@[1]);
    assert("f64"@[0] != "str"@[0]);
    assert("f32"@[0] != "int"@[0]);
    assert("f32"@[0] != "Int"@[0]);
    assert("f32"@[0] != "i32"@[0]);
    assert("f32"@[0] != "i64"@[0]);
    assert("f32"@[1] != "f64"@[1]);
    assert("f32"@[0] != "str"@[0]);
    assert("float"@[0] != "Float"@[0]);
    assert("float"@[0] != "bytes"@[0]);
    assert("Float"@[0] != "float"@[0]);
    assert("Float"@[0] != "bytes"@[0]);
    assert("i64"@[1] != "int"@[1]);
    assert("i64"@[0] != "Int"@[0]);
    assert("i64"@[1] != "i32"@[1]);
    assert("i64"@[0] != "f32"@[0]);
    assert("i64"@[0] != "f64"@[0]);
    assert("i64"@[0] != "str"@[0]);
    assert("i32"@[1] != "int"@[1]);
    assert("i32"@[0] != "Int"@[0]);
    assert("i32"@[1] != "i64"@[1]);
    assert("i32"@[0] != "f32"@[0]);
    assert("i32"@[0] != "f64"@[0]);
    assert("i32"@[0] != "str"@[0]);
    assert("int"@[0] != "Int"@[0]);
    assert("int"@[1] != "i32"@[1]);
    assert("int"@[1] != "i64"@[1]);
    assert("int"@[0] != "f32"@[0]);
    assert("int"@[0] != "f64"@[0]);
    assert("int"@[0] != "str"@[0]);
    assert("Int"@[0] != "int"@[0]);
    assert("Int"@[0] != "i32"@[0]);
    assert("Int"@[0] != "i64"@[0]);
    assert("Int"@[0] != "f32"@[0]);
    assert("Int"@[0] != "f64"@[0]);
    assert("Int"@[0] != "str"@[0]);
    assert("str"@[0] != "int"@[0]);
    assert("str"@[0] != "Int"@[0]);
    assert("str"@[0] != "i32"@[0]);
    assert("str"@[0] != "i64"@[0]);
    assert("str"@[0] != "f32"@[0]);
    assert("str"@[0] != "f64"@[0]);
    assert("String"@[0] != "string"@[0]);
    assert("string"@[0] != "String"@[0]);
    assert("bool"@[0] != "Bool"@[0]);
    assert("bool"@[0] != "Data"@[0]);
    assert("Bool"@[0] != "bool"@[0]);
    assert("Bool"@[0] != "Data"@[0]);
}

} // verus!
