//! The stub files that `export` writes for one function, and its provider script.
use crate::export_templates::{
    C_DIRECT_STUB, C_JSON_FLAG, C_JSON_REAL, C_JSON_TEXT, C_JSON_WHOLE, C_LINKER_HEADER,
    C_LINKER_MAKEFILE, C_LINKER_SOURCE, C_RESULT_BYTE, C_RESULT_RAW, C_RESULT_REAL, C_RESULT_TEXT,
    C_RESULT_WHOLE, C_STUB, JS_PROVIDER, PYTHON_PROVIDER, PYTHON_STUB, PY_JSON_ENTRY, RUBY_PROVIDER,
    RUST_JSON_ARG, RUST_STUB,
};
use crate::go_stub::{go_stub, go_stub_chars};
use crate::providers::{compiled_provider, compiled_provider_chars, is_compiled_source};
use crate::signature::{FunctionSig, SigView, pair_views};
use crate::template::{fill, fill_chars, fill_template, str_views};
use crate::text::{
    chars_of, concat_all, copy_range, decimal, extend_chars, extend_str, is_text, join, join_range,
    lemma_join_contains, occurs_at, split, split_chars, starts_with, str_eq, string_of,
    to_uppercase, to_vec, trim, trim_chars, uppercase_of, views,
};
use crate::types::{
    c_type_for, ext_for_target, python_type_for, rust_type_for, target_extension, type_to_c,
    type_to_python, type_to_rust,
};
use vstd::prelude::*;

verus! {

/// The decimal numeral of a non-negative integer.
pub open spec fn dec(n: int) -> Seq<char> {
    decimal(n as nat)
}

/// The kinds of per-argument pieces that stubs hold: each is one entry of the
/// JSON object that the stub sends.
#[derive(Clone, Copy)]
pub enum FieldLine {
    RustArg,
    PythonArg,
    CArg,
}
/// The type names that stubs treat as text.
pub open spec fn is_string_type(t: Seq<char>) -> bool {
    t == "str"@ || t == "String"@ || t == "string"@
}

/// The type names that stubs treat as booleans.
pub open spec fn is_bool_type(t: Seq<char>) -> bool {
    t == "bool"@ || t == "Bool"@
}

/// The Rust type a stub declares a parameter with: text is borrowed as `&str`.
pub open spec fn rust_param_type(ty: Seq<char>) -> Seq<char> {
    if is_string_type(trim(ty)) {
        "&str"@
    } else {
        rust_type_for(ty)
    }
}

/// The element types of a `Tuple[..]` or `tuple[..]` type name; `None` where
/// `ty` names no tuple.
pub open spec fn tuple_elements(ty: Seq<char>) -> Option<Seq<Seq<char>>> {
    let t = trim(ty);
    if t.len() >= 7 && (occurs_at(t, "Tuple["@, 0) || occurs_at(t, "tuple["@, 0)) && t.last()
        == ']' {
        Some(split(t.subrange(6, t.len() - 1), ','))
    } else {
        None
    }
}

/// The Rust type a stub returns for a source return type: a tuple maps to a
/// Rust tuple of the mapped element types.
pub open spec fn rust_return_type(ty: Seq<char>) -> Seq<char> {
    match tuple_elements(ty) {
        Some(parts) => "("@ + join(Seq::new(parts.len(), |i: int| rust_type_for(parts[i])), ", "@)
            + ")"@,
        None => rust_type_for(ty),
    }
}

/// The source type names that the C stub sends as JSON numbers with a fraction.
pub open spec fn is_real_type(t: Seq<char>) -> bool {
    t == "float"@ || t == "f32"@ || t == "Float"@ || t == "f64"@ || t == "double"@
}

/// The source type names that the C stub sends as JSON strings.
pub open spec fn is_c_text_type(t: Seq<char>) -> bool {
    is_string_type(t) || t == "const char*"@ || t == "Data"@ || t == "bytes"@
}

/// The piece of a stub that puts the argument `name` of type `ty` into the
/// JSON object it sends, keyed by `name`.
pub open spec fn field_line(kind: FieldLine, name: Seq<char>, ty: Seq<char>) -> Seq<char> {
    let t = trim(ty);
    match kind {
        FieldLine::RustArg => fill(str_views(RUST_JSON_ARG@), seq![name, name]),
        FieldLine::PythonArg => fill(str_views(PY_JSON_ENTRY@), seq![name, name]),
        FieldLine::CArg => if is_c_text_type(t) {
            fill(str_views(C_JSON_TEXT@), seq![name, name])
        } else if is_bool_type(t) {
            fill(str_views(C_JSON_FLAG@), seq![name, name])
        } else if is_real_type(t) {
            fill(str_views(C_JSON_REAL@), seq![name, name])
        } else {
            fill(str_views(C_JSON_WHOLE@), seq![name, name])
        },
    }
}

/// The pieces of all arguments, one after another.
pub open spec fn fields_text(kind: FieldLine, params: Seq<(Seq<char>, Seq<char>)>) -> Seq<char> {
    concat_all(Seq::new(params.len(), |i: int| field_line(kind, params[i].0, params[i].1)))
}

/// How the C stub reads the `result` of the reply, by its C return type.
pub open spec fn c_result_read(ret_c: Seq<char>) -> Seq<char> {
    if ret_c == "const char*"@ {
        str_views(C_RESULT_TEXT@)[0]
    } else if ret_c == "uint8_t"@ {
        str_views(C_RESULT_BYTE@)[0]
    } else if ret_c == "double"@ || ret_c == "float"@ {
        fill(str_views(C_RESULT_REAL@), seq![ret_c])
    } else if ret_c == "void*"@ || ret_c == "const uint8_t*"@ {
        fill(str_views(C_RESULT_RAW@), seq![ret_c])
    } else {
        fill(str_views(C_RESULT_WHOLE@), seq![ret_c])
    }
}

/// The ways stubs declare a parameter.
#[derive(Clone, Copy)]
pub enum DeclStyle {
    Rust,
    Python,
    C,
}

/// How a stub declares the parameter `name` of type `ty`.
pub open spec fn decl(style: DeclStyle, name: Seq<char>, ty: Seq<char>) -> Seq<char> {
    match style {
        DeclStyle::Rust => name + ": "@ + rust_param_type(ty),
        DeclStyle::Python => name + ": "@ + python_type_for(ty),
        DeclStyle::C => c_type_for(ty) + " "@ + name,
    }
}

/// The parameter declarations of a stub, separated by `, `.
pub open spec fn decls(style: DeclStyle, params: Seq<(Seq<char>, Seq<char>)>) -> Seq<char> {
    join(Seq::new(params.len(), |i: int| decl(style, params[i].0, params[i].1)), ", "@)
}

/// Stubs keep the parameters' names and types: the parameter list of a stub
/// holds the declaration of each parameter, and a Rust or Python declaration is
/// the parameter's name, `: `, and the type that the source type maps to (in
/// Rust, text is borrowed as `&str`); a C declaration is the mapped type, a
/// space, and the name.
pub proof fn law_declarations_keep_parameters(
    style: DeclStyle,
    params: Seq<(Seq<char>, Seq<char>)>,
    i: int,
)
    requires
        0 <= i < params.len(),
    ensures
        exists|k: int| occurs_at(decls(style, params), decl(style, params[i].0, params[i].1), k),
        style is Rust ==> decl(style, params[i].0, params[i].1) == params[i].0 + ": "@
            + rust_param_type(params[i].1),
        style is Python ==> decl(style, params[i].0, params[i].1) == params[i].0 + ": "@
            + python_type_for(params[i].1),
        style is C ==> decl(style, params[i].0, params[i].1) == c_type_for(params[i].1) + " "@
            + params[i].0,
{
    let parts = Seq::new(params.len(), |j: int| decl(style, params[j].0, params[j].1));
    lemma_join_contains(parts, ", "@, i);
    assert(parts[i] == decl(style, params[i].0, params[i].1));
    let k = choose|k: int| occurs_at(join(parts, ", "@), parts[i], k);
    assert(occurs_at(decls(style, params), decl(style, params[i].0, params[i].1), k));
}

/// The C return type of a stub.
pub open spec fn c_return(return_types: Seq<(Seq<char>, Seq<char>)>) -> Seq<char> {
    if return_types.len() == 1 {
        c_type_for(return_types[0].1)
    } else {
        "void*"@
    }
}

/// The file name and content of the stub for `lang`.
pub open spec fn target_stub(
    lang: Seq<char>,
    sig: SigView,
    func_name: Seq<char>,
) -> (Seq<char>, Seq<char>) {
    let one = sig.return_types.len() == 1;
    if lang == "rust"@ {
        let ret = if one {
            rust_return_type(sig.return_types[0].1)
        } else {
            "Vec<u8>"@
        };
        (
            "stub.rs"@,
            fill(
                str_views(RUST_STUB@),
                seq![
                    func_name,
                    decls(DeclStyle::Rust, sig.params),
                    ret,
                    fields_text(FieldLine::RustArg, sig.params),
                    func_name,
                ],
            ),
        )
    } else if lang == "python"@ {
        (
            "stub.py"@,
            fill(
                str_views(PYTHON_STUB@),
                seq![
                    func_name,
                    func_name,
                    decls(DeclStyle::Python, sig.params),
                    fields_text(FieldLine::PythonArg, sig.params),
                ],
            ),
        )
    } else if lang == "c-direct"@ {
        (
            "registry.h"@,
            fill(
                str_views(C_DIRECT_STUB@),
                seq![
                    func_name,
                    c_return(sig.return_types),
                    func_name,
                    decls(DeclStyle::C, sig.params),
                    func_name,
                    func_name,
                    func_name,
                    func_name,
                    func_name,
                ],
            ),
        )
    } else if lang == "c-linker"@ {
        (
            func_name + ".h"@,
            fill(
                str_views(C_LINKER_HEADER@),
                seq![
                    func_name,
                    func_name,
                    func_name,
                    uppercase_of(func_name),
                    uppercase_of(func_name),
                    c_return(sig.return_types),
                    func_name,
                    decls(DeclStyle::C, sig.params),
                ],
            ),
        )
    } else if lang == "c"@ {
        let ret_c = c_return(sig.return_types);
        (
            "stub.h"@,
            fill(
                str_views(C_STUB@),
                seq![
                    ret_c,
                    func_name,
                    decls(DeclStyle::C, sig.params),
                    func_name,
                    func_name,
                    fields_text(FieldLine::CArg, sig.params),
                    c_result_read(ret_c),
                ],
            ),
        )
    } else if lang == "go"@ {
        ("stub.go"@, go_stub(sig, func_name))
    } else {
        (
            "stub."@ + target_extension(lang),
            "// metropipe stub for "@ + func_name + " ("@ + lang + ")\n"@,
        )
    }
}


fn field_line_chars(kind: FieldLine, name: &[char], ty: &str) -> (out: Vec<char>)
    ensures
        out@ == field_line(kind, name@, ty@),
{
    let t = trim_chars(&chars_of(ty));
    let mut v: Vec<Vec<char>> = Vec::new();
    v.push(to_vec(name));
    v.push(to_vec(name));
    assert(views(v@) =~= seq![name@, name@]);
    match kind {
        FieldLine::RustArg => fill_chars(RUST_JSON_ARG.as_slice(), &v),
        FieldLine::PythonArg => fill_chars(PY_JSON_ENTRY.as_slice(), &v),
        FieldLine::CArg => {
            if is_text(&t, "str") || is_text(&t, "String") || is_text(&t, "string") || is_text(
                &t,
                "const char*",
            ) || is_text(&t, "Data") || is_text(&t, "bytes") {
                fill_chars(C_JSON_TEXT.as_slice(), &v)
            } else if is_text(&t, "bool") || is_text(&t, "Bool") {
                fill_chars(C_JSON_FLAG.as_slice(), &v)
            } else if is_text(&t, "float") || is_text(&t, "f32") || is_text(&t, "Float")
                || is_text(&t, "f64") || is_text(&t, "double") {
                fill_chars(C_JSON_REAL.as_slice(), &v)
            } else {
                fill_chars(C_JSON_WHOLE.as_slice(), &v)
            }
        },
    }
}

fn fields_chars(kind: FieldLine, params: &Vec<(String, String)>) -> (out: Vec<char>)
    ensures
        out@ == fields_text(kind, pair_views(params@)),
{
    let ghost ps = pair_views(params@);
    let ghost snips = Seq::new(ps.len(), |i: int| field_line(kind, ps[i].0, ps[i].1));
    let mut out: Vec<char> = Vec::new();
    let mut k: usize = 0;
    assert(snips.take(0) =~= Seq::<Seq<char>>::empty());
    while k < params.len()
        invariant
            ps == pair_views(params@),
            snips == Seq::new(ps.len(), |i: int| field_line(kind, ps[i].0, ps[i].1)),
            k <= params@.len(),
            out@ == concat_all(snips.take(k as int)),
        decreases params@.len() - k,
    {
        let name = chars_of(params[k].0.as_str());
        let line = field_line_chars(kind, &name, params[k].1.as_str());
        assert(line@ == snips[k as int]);
        extend_chars(&mut out, &line);
        assert(snips.take(k + 1).drop_last() =~= snips.take(k as int));
        k = k + 1;
    }
    assert(snips.take(k as int) =~= snips);
    out
}

fn c_result_read_chars(ret_c: &[char]) -> (out: Vec<char>)
    ensures
        out@ == c_result_read(ret_c@),
{
    let mut v: Vec<Vec<char>> = Vec::new();
    v.push(to_vec(ret_c));
    assert(views(v@) =~= seq![ret_c@]);
    if is_text(ret_c, "const char*") {
        chars_of(C_RESULT_TEXT[0])
    } else if is_text(ret_c, "uint8_t") {
        chars_of(C_RESULT_BYTE[0])
    } else if is_text(ret_c, "double") || is_text(ret_c, "float") {
        fill_chars(C_RESULT_REAL.as_slice(), &v)
    } else if is_text(ret_c, "void*") || is_text(ret_c, "const uint8_t*") {
        fill_chars(C_RESULT_RAW.as_slice(), &v)
    } else {
        fill_chars(C_RESULT_WHOLE.as_slice(), &v)
    }
}

fn decls_chars(style: DeclStyle, params: &Vec<(String, String)>) -> (out: Vec<char>)
    ensures
        out@ == decls(style, pair_views(params@)),
{
    let ghost ps = pair_views(params@);
    let mut parts: Vec<Vec<char>> = Vec::new();
    let mut k: usize = 0;
    while k < params.len()
        invariant
            ps == pair_views(params@),
            k <= params@.len(),
            views(parts@) == Seq::new(k as nat, |i: int| decl(style, ps[i].0, ps[i].1)),
        decreases params@.len() - k,
    {
        let name = chars_of(params[k].0.as_str());
        let ty = params[k].1.as_str();
        let mut d: Vec<char> = Vec::new();
        match style {
            DeclStyle::Rust => {
                extend_chars(&mut d, &name);
                extend_str(&mut d, ": ");
                let t = trim_chars(&chars_of(ty));
                if is_text(&t, "str") || is_text(&t, "String") || is_text(&t, "string") {
                    extend_str(&mut d, "&str");
                } else {
                    extend_str(&mut d, type_to_rust(ty));
                }
            },
            DeclStyle::Python => {
                extend_chars(&mut d, &name);
                extend_str(&mut d, ": ");
                extend_str(&mut d, type_to_python(ty));
            },
            DeclStyle::C => {
                extend_str(&mut d, type_to_c(ty));
                extend_str(&mut d, " ");
                extend_chars(&mut d, &name);
            },
        }
        assert(d@ =~= decl(style, ps[k as int].0, ps[k as int].1));
        let ghost before = views(parts@);
        let ghost dv = d@;
        parts.push(d);
        assert(views(parts@) =~= before.push(dv));
        k = k + 1;
        assert(views(parts@) =~= Seq::new(k as nat, |i: int| decl(style, ps[i].0, ps[i].1)));
    }
    let sep = chars_of(", ");
    let n = parts.len();
    let out = join_range(&parts, 0, n, &sep);
    assert(parts@.subrange(0, n as int) =~= parts@);
    out
}

/// The Rust type a stub returns for the source return type `ty`.
fn rust_return_chars(ty: &str) -> (out: Vec<char>)
    ensures
        out@ == rust_return_type(ty@),
{
    let t = trim_chars(&chars_of(ty));
    let n = t.len();
    if n >= 7 && (starts_with(&t, &chars_of("Tuple[")) || starts_with(&t, &chars_of("tuple[")))
        && t[n - 1] == ']' {
        let parts = split_chars(&copy_range(&t, 6, n - 1), ',');
        let mut mapped: Vec<Vec<char>> = Vec::new();
        let mut i: usize = 0;
        while i < parts.len()
            invariant
                i <= parts@.len(),
                views(mapped@) == Seq::new(i as nat, |j: int| rust_type_for(views(parts@)[j])),
            decreases parts@.len() - i,
        {
            let piece = string_of(&parts[i]);
            let m = chars_of(type_to_rust(piece.as_str()));
            let ghost before = views(mapped@);
            let ghost mv = m@;
            mapped.push(m);
            assert(views(parts@)[i as int] == parts@[i as int]@);
            assert(views(mapped@) =~= before.push(mv));
            i = i + 1;
            assert(views(mapped@) =~= Seq::new(i as nat, |j: int| rust_type_for(views(parts@)[j])));
        }
        let k = mapped.len();
        let inner = join_range(&mapped, 0, k, &chars_of(", "));
        assert(mapped@.subrange(0, k as int) =~= mapped@);
        let mut out = chars_of("(");
        extend_chars(&mut out, &inner);
        extend_str(&mut out, ")");
        assert(out@ =~= "("@ + join(
            Seq::new(views(parts@).len(), |j: int| rust_type_for(views(parts@)[j])),
            ", "@,
        ) + ")"@);
        out
    } else {
        chars_of(type_to_rust(ty))
    }
}

/// Generate a typed stub in the target language for a function signature:
/// the stub's file name and its content.
pub fn generate_target_stub(
    lang: &str,
    sig: &FunctionSig,
    func_name: &str,
) -> (r: Result<(String, String), String>)
    ensures
        r matches Ok(file) && (file.0@, file.1@) == target_stub(lang@, sig@, func_name@),
{
    let name = chars_of(func_name);
    let one = sig.return_types.len() == 1;
    let mut v: Vec<Vec<char>> = Vec::new();
    let ghost ps = sig@.params;
    if str_eq(lang, "rust") {
        let ret = if one {
            rust_return_chars(sig.return_types[0].1.as_str())
        } else {
            chars_of("Vec<u8>")
        };
        v.push(to_vec(&name));
        v.push(decls_chars(DeclStyle::Rust, &sig.params));
        v.push(ret);
        v.push(fields_chars(FieldLine::RustArg, &sig.params));
        v.push(to_vec(&name));
        assert(views(v@) =~= seq![
            func_name@,
            decls(DeclStyle::Rust, ps),
            (if one {
                rust_return_type(sig@.return_types[0].1)
            } else {
                "Vec<u8>"@
            }),
            fields_text(FieldLine::RustArg, ps),
            func_name@,
        ]);
        Ok(("stub.rs".to_owned(), string_of(&fill_chars(RUST_STUB.as_slice(), &v))))
    } else if str_eq(lang, "python") {
        v.push(to_vec(&name));
        v.push(to_vec(&name));
        v.push(decls_chars(DeclStyle::Python, &sig.params));
        v.push(fields_chars(FieldLine::PythonArg, &sig.params));
        assert(views(v@) =~= seq![
            func_name@,
            func_name@,
            decls(DeclStyle::Python, ps),
            fields_text(FieldLine::PythonArg, ps),
        ]);
        Ok(("stub.py".to_owned(), string_of(&fill_chars(PYTHON_STUB.as_slice(), &v))))
    } else if str_eq(lang, "c-direct") {
        let ret_c = c_return_chars(&sig.return_types);
        v.push(to_vec(&name));
        v.push(ret_c);
        v.push(to_vec(&name));
        v.push(decls_chars(DeclStyle::C, &sig.params));
        v.push(to_vec(&name));
        v.push(to_vec(&name));
        v.push(to_vec(&name));
        v.push(to_vec(&name));
        v.push(to_vec(&name));
        assert(views(v@) =~= seq![
            func_name@,
            c_return(sig@.return_types),
            func_name@,
            decls(DeclStyle::C, ps),
            func_name@,
            func_name@,
            func_name@,
            func_name@,
            func_name@,
        ]);
        Ok(("registry.h".to_owned(), string_of(&fill_chars(C_DIRECT_STUB.as_slice(), &v))))
    } else if str_eq(lang, "c-linker") {
        let upper = chars_of(to_uppercase(func_name).as_str());
        v.push(to_vec(&name));
        v.push(to_vec(&name));
        v.push(to_vec(&name));
        v.push(to_vec(&upper));
        v.push(to_vec(&upper));
        v.push(c_return_chars(&sig.return_types));
        v.push(to_vec(&name));
        v.push(decls_chars(DeclStyle::C, &sig.params));
        assert(views(v@) =~= seq![
            func_name@,
            func_name@,
            func_name@,
            uppercase_of(func_name@),
            uppercase_of(func_name@),
            c_return(sig@.return_types),
            func_name@,
            decls(DeclStyle::C, ps),
        ]);
        let mut header_name = to_vec(&name);
        extend_str(&mut header_name, ".h");
        Ok((string_of(&header_name), string_of(&fill_chars(C_LINKER_HEADER.as_slice(), &v))))
    } else if str_eq(lang, "c") {
        let ret_c = c_return_chars(&sig.return_types);
        v.push(to_vec(&ret_c));
        v.push(to_vec(&name));
        v.push(decls_chars(DeclStyle::C, &sig.params));
        v.push(to_vec(&name));
        v.push(to_vec(&name));
        v.push(fields_chars(FieldLine::CArg, &sig.params));
        v.push(c_result_read_chars(&ret_c));
        assert(views(v@) =~= seq![
            c_return(sig@.return_types),
            func_name@,
            decls(DeclStyle::C, ps),
            func_name@,
            func_name@,
            fields_text(FieldLine::CArg, ps),
            c_result_read(c_return(sig@.return_types)),
        ]);
        Ok(("stub.h".to_owned(), string_of(&fill_chars(C_STUB.as_slice(), &v))))
    } else if str_eq(lang, "go") {
        Ok(("stub.go".to_owned(), string_of(&go_stub_chars(sig, func_name))))
    } else {
        let mut file_name: Vec<char> = Vec::new();
        extend_str(&mut file_name, "stub.");
        extend_str(&mut file_name, ext_for_target(lang));
        let mut content: Vec<char> = Vec::new();
        extend_str(&mut content, "// metropipe stub for ");
        extend_chars(&mut content, &name);
        extend_str(&mut content, " (");
        extend_str(&mut content, lang);
        extend_str(&mut content, ")\n");
        Ok((string_of(&file_name), string_of(&content)))
    }
}

fn c_return_chars(return_types: &Vec<(String, String)>) -> (out: Vec<char>)
    ensures
        out@ == c_return(pair_views(return_types@)),
{
    if return_types.len() == 1 {
        chars_of(type_to_c(return_types[0].1.as_str()))
    } else {
        chars_of("void*")
    }
}


/// What `Path::file_stem` gives for a path, as UTF-8 text.
pub uninterp spec fn file_stem_of(path: Seq<char>) -> Option<Seq<char>>;

/// Calls `Path::file_stem` and `OsStr::to_str`. Claimed: the result is a
/// function of the path's characters alone; which part of the path it is
/// (the file name without its last extension) is left unstated.
#[verifier::external_body]
pub(crate) fn path_file_stem(path: &str) -> (r: Option<String>)
    ensures
        match r {
            Some(s) => file_stem_of(path@) == Some(s@),
            None => file_stem_of(path@) is None,
        },
{
    let stem = std::path::Path::new(path).file_stem()?;
    Some(stem.to_str()?.to_owned())
}

/// The module name a provider imports: the stem of the source path, or `module`.
pub open spec fn provider_module(source_path: Seq<char>) -> Seq<char> {
    match file_stem_of(source_path) {
        Some(s) => s,
        None => "module"@,
    }
}

/// The lines of a Python provider that take each argument out of the request.
pub open spec fn args_unpack(params: Seq<(Seq<char>, Seq<char>)>) -> Seq<char> {
    join(
        Seq::new(
            params.len(),
            |i: int| "        "@ + params[i].0 + " = req_data[\""@ + params[i].0 + "\"]"@,
        ),
        "\n"@,
    )
}

/// The argument list of the provider's call: the parameter names, separated by `, `.
pub open spec fn args_call(params: Seq<(Seq<char>, Seq<char>)>) -> Seq<char> {
    join(Seq::new(params.len(), |i: int| params[i].0), ", "@)
}

/// The arguments of the provider's call taken out of the request object
/// `obj`: `obj["name"]` for each parameter, separated by `, `.
pub open spec fn keyed_args(obj: Seq<char>, params: Seq<(Seq<char>, Seq<char>)>) -> Seq<char> {
    join(Seq::new(params.len(), |i: int| obj + "[\""@ + params[i].0 + "\"]"@), ", "@)
}

/// The provider script for a signature read from a source file whose module
/// is `module`: a script in the source language for Python, JavaScript,
/// TypeScript (run by a runtime that loads TypeScript modules through
/// `require`) and Ruby sources, a program in the source language for Rust,
/// Go, C, Java and C# sources, and a one-line note for any other language.
pub open spec fn provider_script(sig: SigView, module: Seq<char>) -> Seq<char> {
    if sig.source_lang == "python"@ {
        fill(
            str_views(PYTHON_PROVIDER@),
            seq![
                module,
                sig.name,
                sig.name,
                sig.name,
                sig.name,
                args_unpack(sig.params),
                sig.name,
                args_call(sig.params),
            ],
        )
    } else if sig.source_lang == "js"@ || sig.source_lang == "ts"@ {
        fill(
            str_views(JS_PROVIDER@),
            seq![module, sig.name, sig.name, sig.name, keyed_args("reqData"@, sig.params)],
        )
    } else if sig.source_lang == "ruby"@ {
        fill(
            str_views(RUBY_PROVIDER@),
            seq![module, sig.name, sig.name, sig.name, keyed_args("req_data"@, sig.params)],
        )
    } else if is_compiled_source(sig.source_lang) {
        compiled_provider(sig, module)
    } else {
        "# provider for "@ + sig.name + " — run with your language's runtime\n"@
    }
}

fn keyed_args_chars(obj: &str, params: &Vec<(String, String)>) -> (out: Vec<char>)
    ensures
        out@ == keyed_args(obj@, pair_views(params@)),
{
    let ghost ps = pair_views(params@);
    let ghost items = Seq::new(ps.len(), |i: int| obj@ + "[\""@ + ps[i].0 + "\"]"@);
    let mut parts: Vec<Vec<char>> = Vec::new();
    let mut k: usize = 0;
    while k < params.len()
        invariant
            ps == pair_views(params@),
            items == Seq::new(ps.len(), |i: int| obj@ + "[\""@ + ps[i].0 + "\"]"@),
            k <= params@.len(),
            views(parts@) == items.take(k as int),
        decreases params@.len() - k,
    {
        let mut d = chars_of(obj);
        extend_str(&mut d, "[\"");
        extend_str(&mut d, params[k].0.as_str());
        extend_str(&mut d, "\"]");
        let ghost before = views(parts@);
        let ghost dv = d@;
        parts.push(d);
        assert(views(parts@) =~= before.push(dv));
        k = k + 1;
        assert(items.take(k as int) =~= items.take(k - 1).push(items[k - 1]));
    }
    let sep = chars_of(", ");
    let n = parts.len();
    let out = join_range(&parts, 0, n, &sep);
    assert(parts@.subrange(0, n as int) =~= parts@);
    assert(items.take(n as int) =~= items);
    out
}

fn args_unpack_chars(params: &Vec<(String, String)>) -> (out: Vec<char>)
    ensures
        out@ == args_unpack(pair_views(params@)),
{
    let ghost ps = pair_views(params@);
    let ghost lines = Seq::new(
        ps.len(),
        |i: int| "        "@ + ps[i].0 + " = req_data[\""@ + ps[i].0 + "\"]"@,
    );
    let mut parts: Vec<Vec<char>> = Vec::new();
    let mut k: usize = 0;
    while k < params.len()
        invariant
            ps == pair_views(params@),
            lines == Seq::new(
                ps.len(),
                |i: int| "        "@ + ps[i].0 + " = req_data[\""@ + ps[i].0 + "\"]"@,
            ),
            k <= params@.len(),
            views(parts@) == lines.take(k as int),
        decreases params@.len() - k,
    {
        let name = chars_of(params[k].0.as_str());
        let mut d: Vec<char> = Vec::new();
        extend_str(&mut d, "        ");
        extend_chars(&mut d, &name);
        extend_str(&mut d, " = req_data[\"");
        extend_chars(&mut d, &name);
        extend_str(&mut d, "\"]");
        let ghost before = views(parts@);
        let ghost dv = d@;
        parts.push(d);
        assert(views(parts@) =~= before.push(dv));
        k = k + 1;
        assert(lines.take(k as int) =~= lines.take(k - 1).push(lines[k - 1]));
    }
    let sep = chars_of("\n");
    let n = parts.len();
    let out = join_range(&parts, 0, n, &sep);
    assert(parts@.subrange(0, n as int) =~= parts@);
    assert(lines.take(n as int) =~= lines);
    out
}

fn args_call_chars(params: &Vec<(String, String)>) -> (out: Vec<char>)
    ensures
        out@ == args_call(pair_views(params@)),
{
    let ghost ps = pair_views(params@);
    let ghost names = Seq::new(ps.len(), |i: int| ps[i].0);
    let mut parts: Vec<Vec<char>> = Vec::new();
    let mut k: usize = 0;
    while k < params.len()
        invariant
            ps == pair_views(params@),
            names == Seq::new(ps.len(), |i: int| ps[i].0),
            k <= params@.len(),
            views(parts@) == names.take(k as int),
        decreases params@.len() - k,
    {
        let name = chars_of(params[k].0.as_str());
        let ghost before = views(parts@);
        let ghost dv = name@;
        parts.push(name);
        assert(views(parts@) =~= before.push(dv));
        k = k + 1;
        assert(names.take(k as int) =~= names.take(k - 1).push(names[k - 1]));
    }
    let sep = chars_of(", ");
    let n = parts.len();
    let out = join_range(&parts, 0, n, &sep);
    assert(parts@.subrange(0, n as int) =~= parts@);
    assert(names.take(n as int) =~= names);
    out
}

/// Generate a provider script that wraps the real function in a metropipe poll loop.
pub fn generate_provider(sig: &FunctionSig, source_path: &str) -> (script: String)
    ensures
        script@ == provider_script(sig@, provider_module(source_path@)),
{
    let module = match path_file_stem(source_path) {
        Some(s) => chars_of(s.as_str()),
        None => chars_of("module"),
    };
    if str_eq(sig.source_lang.as_str(), "python") {
        let name = chars_of(sig.name.as_str());
        let mut v: Vec<Vec<char>> = Vec::new();
        v.push(module);
        v.push(to_vec(&name));
        v.push(to_vec(&name));
        v.push(to_vec(&name));
        v.push(to_vec(&name));
        v.push(args_unpack_chars(&sig.params));
        v.push(to_vec(&name));
        v.push(args_call_chars(&sig.params));
        assert(views(v@) =~= seq![
            provider_module(source_path@),
            sig@.name,
            sig@.name,
            sig@.name,
            sig@.name,
            args_unpack(sig@.params),
            sig@.name,
            args_call(sig@.params),
        ]);
        fill_template(PYTHON_PROVIDER.as_slice(), &v)
    } else if str_eq(sig.source_lang.as_str(), "js") || str_eq(sig.source_lang.as_str(), "ts")
        || str_eq(sig.source_lang.as_str(), "ruby") {
        let js = str_eq(sig.source_lang.as_str(), "js") || str_eq(sig.source_lang.as_str(), "ts");
        let name = chars_of(sig.name.as_str());
        let mut v: Vec<Vec<char>> = Vec::new();
        v.push(module);
        v.push(to_vec(&name));
        v.push(to_vec(&name));
        v.push(to_vec(&name));
        v.push(keyed_args_chars(if js { "reqData" } else { "req_data" }, &sig.params));
        if js {
            assert(views(v@) =~= seq![
                provider_module(source_path@),
                sig@.name,
                sig@.name,
                sig@.name,
                keyed_args("reqData"@, sig@.params),
            ]);
            fill_template(JS_PROVIDER.as_slice(), &v)
        } else {
            assert(views(v@) =~= seq![
                provider_module(source_path@),
                sig@.name,
                sig@.name,
                sig@.name,
                keyed_args("req_data"@, sig@.params),
            ]);
            fill_template(RUBY_PROVIDER.as_slice(), &v)
        }
    } else if str_eq(sig.source_lang.as_str(), "rust") || str_eq(sig.source_lang.as_str(), "go")
        || str_eq(sig.source_lang.as_str(), "c") || str_eq(sig.source_lang.as_str(), "java")
        || str_eq(sig.source_lang.as_str(), "csharp") {
        string_of(&compiled_provider_chars(sig, &module))
    } else {
        let mut out: Vec<char> = Vec::new();
        extend_str(&mut out, "# provider for ");
        extend_str(&mut out, sig.name.as_str());
        extend_str(&mut out, " — run with your language's runtime\n");
        string_of(&out)
    }
}

/// The files that `export` writes for one target language: the direct-linking C
/// target gets a header, a C source and a Makefile; every other target gets its stub.
pub open spec fn stub_files(
    lang: Seq<char>,
    sig: SigView,
    func_name: Seq<char>,
) -> Seq<(Seq<char>, Seq<char>)> {
    if lang == "c-linker"@ {
        seq![
            (func_name + ".h"@, target_stub("c-linker"@, sig, func_name).1),
            (
                func_name + ".c"@,
                fill(str_views(C_LINKER_SOURCE@), seq![func_name, func_name, func_name]),
            ),
            (
                "Makefile"@,
                fill(str_views(C_LINKER_MAKEFILE@), seq![func_name, func_name, func_name]),
            ),
        ]
    } else {
        seq![target_stub(lang, sig, func_name)]
    }
}

/// The files to write for one target language, as (file name, content) pairs.
pub fn stub_files_for_lang(
    lang: &str,
    sig: &FunctionSig,
    func_name: &str,
) -> (files: Vec<(String, String)>)
    ensures
        pair_views(files@) == stub_files(lang@, sig@, func_name@),
{
    let mut files: Vec<(String, String)> = Vec::new();
    if str_eq(lang, "c-linker") {
        let name = chars_of(func_name);
        let header = match generate_target_stub("c-linker", sig, func_name) {
            Ok(file) => file.1,
            Err(e) => e,
        };
        let mut h_name: Vec<char> = to_vec(&name);
        extend_str(&mut h_name, ".h");
        let mut c_name: Vec<char> = to_vec(&name);
        extend_str(&mut c_name, ".c");
        let mut v: Vec<Vec<char>> = Vec::new();
        v.push(to_vec(&name));
        v.push(to_vec(&name));
        v.push(to_vec(&name));
        assert(views(v@) =~= seq![func_name@, func_name@, func_name@]);
        let source = fill_template(C_LINKER_SOURCE.as_slice(), &v);
        let makefile = fill_template(C_LINKER_MAKEFILE.as_slice(), &v);
        files.push((string_of(&h_name), header));
        files.push((string_of(&c_name), source));
        files.push(("Makefile".to_owned(), makefile));
    } else {
        match generate_target_stub(lang, sig, func_name) {
            Ok(file) => files.push(file),
            Err(e) => files.push((e, String::new())),
        }
    }
    assert(pair_views(files@) =~= stub_files(lang@, sig@, func_name@));
    files
}

} // verus!
