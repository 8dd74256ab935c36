//! The Go stub that `export` writes for one function.
use crate::client::ascii_upper;
use crate::export_templates::GO_STUB;
use crate::signature::{pair_views, FunctionSig, SigView};
use crate::stub::{dec, tuple_elements};
use crate::template::{fill, fill_chars, str_views};
use crate::text::{
    chars_of, concat_all, copy_range, decimal_chars, extend_chars, extend_str, is_text, join,
    join_range, split_chars, starts_with, string_of, trim, trim_chars, views,
};
use vstd::prelude::*;

verus! {

/// The Go type a stub uses for a source type name.
pub open spec fn go_type_for(ty: Seq<char>) -> Seq<char> {
    let t = trim(ty);
    if t == "int"@ || t == "Int"@ || t == "i32"@ || t == "i64"@ {
        "int"@
    } else if t == "float"@ || t == "Float"@ || t == "f32"@ || t == "f64"@ {
        "float64"@
    } else if t == "str"@ || t == "String"@ || t == "string"@ {
        "string"@
    } else if t == "bool"@ || t == "Bool"@ {
        "bool"@
    } else {
        "[]byte"@
    }
}

/// Map a source type name to the Go type used in stubs.
pub fn type_to_go(ty: &str) -> (r: &'static str)
    ensures
        r@ == go_type_for(ty@),
{
    let t = trim_chars(&chars_of(ty));
    if is_text(&t, "int") || is_text(&t, "Int") || is_text(&t, "i32") || is_text(&t, "i64") {
        "int"
    } else if is_text(&t, "float") || is_text(&t, "Float") || is_text(&t, "f32") || is_text(
        &t,
        "f64",
    ) {
        "float64"
    } else if is_text(&t, "str") || is_text(&t, "String") || is_text(&t, "string") {
        "string"
    } else if is_text(&t, "bool") || is_text(&t, "Bool") {
        "bool"
    } else {
        "[]byte"
    }
}

/// `s` in camel case, from a state where the next letter is upper-cased when
/// `up` holds: each `_` is dropped and the letter after it upper-cased.
pub open spec fn camel_from(s: Seq<char>, up: bool) -> Seq<char>
    decreases s.len(),
{
    if s.len() == 0 {
        Seq::empty()
    } else if s[0] == '_' {
        camel_from(s.skip(1), true)
    } else {
        seq![if up { ascii_upper(s[0]) } else { s[0] }] + camel_from(s.skip(1), false)
    }
}

/// A snake-case name in camel case: `image_path` becomes `imagePath`.
pub open spec fn camel(s: Seq<char>) -> Seq<char> {
    camel_from(s, false)
}

/// A Go function name, exported: its first letter in upper case.
pub open spec fn go_exported(name: Seq<char>) -> Seq<char> {
    if name.len() == 0 {
        name
    } else {
        seq![ascii_upper(name[0])] + name.skip(1)
    }
}

/// The Go types of a stub's results, before the `error`: the elements of a
/// tuple return type, or one per return type.
pub open spec fn go_results(return_types: Seq<(Seq<char>, Seq<char>)>) -> Seq<Seq<char>> {
    if return_types.len() == 1 {
        match tuple_elements(return_types[0].1) {
            Some(parts) => Seq::new(parts.len(), |i: int| go_type_for(parts[i])),
            None => seq![go_type_for(return_types[0].1)],
        }
    } else {
        Seq::new(return_types.len(), |i: int| go_type_for(return_types[i].1))
    }
}

/// The parameter declarations of the Go stub: the camel-case name and the Go type.
pub open spec fn go_decls(params: Seq<(Seq<char>, Seq<char>)>) -> Seq<char> {
    join(
        Seq::new(params.len(), |i: int| camel(params[i].0) + " "@ + go_type_for(params[i].1)),
        ", "@,
    )
}

/// The entries of the JSON object the Go stub sends: the parameter's name as
/// the key, the camel-case argument as the value.
pub open spec fn go_entries(params: Seq<(Seq<char>, Seq<char>)>) -> Seq<char> {
    join(
        Seq::new(params.len(), |i: int| "\""@ + params[i].0 + "\": "@ + camel(params[i].0)),
        ", "@,
    )
}

/// The declarations of the result variables `r0`, `r1`, ... with their types.
pub open spec fn go_vars(types: Seq<Seq<char>>) -> Seq<char> {
    concat_all(Seq::new(types.len(), |i: int| "\tvar r"@ + dec(i) + " "@ + types[i] + "\n"@))
}

/// The addresses of the result variables, separated by `, `.
pub open spec fn go_refs(n: nat) -> Seq<char> {
    join(Seq::new(n, |i: int| "&r"@ + dec(i)), ", "@)
}

/// What the Go stub returns: the result variables, then `err`.
pub open spec fn go_return_values(n: nat) -> Seq<char> {
    join(Seq::new(n, |i: int| "r"@ + dec(i)).push("err"@), ", "@)
}

/// The result list of the Go stub's signature: the result types, then `error`.
pub open spec fn go_result_list(types: Seq<Seq<char>>) -> Seq<char> {
    "("@ + join(types.push("error"@), ", "@) + ")"@
}

/// The Go stub of `func_name` for a signature.
pub open spec fn go_stub(sig: SigView, func_name: Seq<char>) -> Seq<char> {
    let types = go_results(sig.return_types);
    fill(
        str_views(GO_STUB@),
        seq![
            go_exported(func_name),
            go_decls(sig.params),
            go_result_list(types),
            go_vars(types),
            func_name,
            go_entries(sig.params),
            go_refs(types.len()),
            go_return_values(types.len()),
            func_name,
            func_name,
        ],
    )
}

fn upper_ascii(c: char) -> (u: char)
    ensures
        u == ascii_upper(c),
{
    if 'a' <= c && c <= 'z' {
        (((c as u32) - 32) as u8) as char
    } else {
        c
    }
}

fn camel_chars(s: &[char]) -> (out: Vec<char>)
    ensures
        out@ == camel(s@),
{
    let mut out: Vec<char> = Vec::new();
    let mut up = false;
    let mut i: usize = 0;
    assert(s@.skip(0) =~= s@);
    while i < s.len()
        invariant
            i <= s@.len(),
            out@ + camel_from(s@.skip(i as int), up) == camel(s@),
        decreases s@.len() - i,
    {
        assert(s@.skip(i as int).skip(1) =~= s@.skip(i + 1));
        let c = s[i];
        if c == '_' {
            up = true;
        } else {
            let d = if up {
                upper_ascii(c)
            } else {
                c
            };
            let ghost rest = camel_from(s@.skip(i + 1), false);
            assert(out@ + (seq![d] + rest) =~= out@.push(d) + rest);
            out.push(d);
            up = false;
        }
        i = i + 1;
    }
    assert(s@.skip(i as int) =~= Seq::<char>::empty());
    assert(out@ + Seq::<char>::empty() =~= out@);
    out
}

fn exported_chars(name: &str) -> (out: Vec<char>)
    ensures
        out@ == go_exported(name@),
{
    let n = chars_of(name);
    if n.len() == 0 {
        n
    } else {
        let mut out: Vec<char> = Vec::new();
        out.push(upper_ascii(n[0]));
        extend_chars(&mut out, &copy_range(&n, 1, n.len()));
        assert(out@ =~= go_exported(name@));
        out
    }
}

/// The pieces joined with `sep`.
fn join_all(parts: &Vec<Vec<char>>, sep: &str) -> (out: Vec<char>)
    ensures
        out@ == join(views(parts@), sep@),
{
    let n = parts.len();
    let out = join_range(parts, 0, n, &chars_of(sep));
    assert(parts@.subrange(0, n as int) =~= parts@);
    out
}

fn push_piece(parts: &mut Vec<Vec<char>>, piece: Vec<char>)
    ensures
        views(final(parts)@) == views(old(parts)@).push(piece@),
{
    parts.push(piece);
    assert(views(parts@) =~= views(old(parts)@).push(piece@));
}

fn go_results_chars(return_types: &Vec<(String, String)>) -> (out: Vec<Vec<char>>)
    ensures
        views(out@) == go_results(pair_views(return_types@)),
{
    let ghost rs = pair_views(return_types@);
    let mut out: Vec<Vec<char>> = Vec::new();
    if return_types.len() == 1 {
        assert(rs[0] == (return_types@[0].0@, return_types@[0].1@));
        let t = trim_chars(&chars_of(return_types[0].1.as_str()));
        let n = t.len();
        if n >= 7 && (starts_with(&t, &chars_of("Tuple[")) || starts_with(&t, &chars_of("tuple[")))
            && t[n - 1] == ']' {
            let parts = split_chars(&copy_range(&t, 6, n - 1), ',');
            let ghost ps = views(parts@);
            assert(tuple_elements(rs[0].1) == Some(ps));
            let mut i: usize = 0;
            while i < parts.len()
                invariant
                    i <= parts@.len(),
                    ps == views(parts@),
                    views(out@) == Seq::new(i as nat, |j: int| go_type_for(ps[j])),
                decreases parts@.len() - i,
            {
                let piece = string_of(&parts[i]);
                push_piece(&mut out, chars_of(type_to_go(piece.as_str())));
                i = i + 1;
                assert(views(out@) =~= Seq::new(i as nat, |j: int| go_type_for(ps[j])));
            }
            assert(views(out@) =~= go_results(rs));
        } else {
            push_piece(&mut out, chars_of(type_to_go(return_types[0].1.as_str())));
            assert(views(out@) =~= go_results(rs));
        }
    } else {
        let mut i: usize = 0;
        while i < return_types.len()
            invariant
                i <= return_types@.len(),
                rs == pair_views(return_types@),
                return_types@.len() != 1,
                views(out@) == Seq::new(i as nat, |j: int| go_type_for(rs[j].1)),
            decreases return_types@.len() - i,
        {
            push_piece(&mut out, chars_of(type_to_go(return_types[i].1.as_str())));
            i = i + 1;
            assert(views(out@) =~= Seq::new(i as nat, |j: int| go_type_for(rs[j].1)));
        }
        assert(views(out@) =~= go_results(rs));
    }
    out
}

fn go_decls_chars(params: &Vec<(String, String)>) -> (out: Vec<char>)
    ensures
        out@ == go_decls(pair_views(params@)),
{
    let ghost ps = pair_views(params@);
    let mut parts: Vec<Vec<char>> = Vec::new();
    let mut k: usize = 0;
    while k < params.len()
        invariant
            k <= params@.len(),
            ps == pair_views(params@),
            views(parts@) == Seq::new(
                k as nat,
                |i: int| camel(ps[i].0) + " "@ + go_type_for(ps[i].1),
            ),
        decreases params@.len() - k,
    {
        let mut d = camel_chars(&chars_of(params[k].0.as_str()));
        extend_str(&mut d, " ");
        extend_str(&mut d, type_to_go(params[k].1.as_str()));
        push_piece(&mut parts, d);
        k = k + 1;
        assert(views(parts@) =~= Seq::new(
            k as nat,
            |i: int| camel(ps[i].0) + " "@ + go_type_for(ps[i].1),
        ));
    }
    assert(Seq::new(k as nat, |i: int| camel(ps[i].0) + " "@ + go_type_for(ps[i].1)) =~= Seq::new(
        ps.len(),
        |i: int| camel(ps[i].0) + " "@ + go_type_for(ps[i].1),
    ));
    join_all(&parts, ", ")
}

fn go_entries_chars(params: &Vec<(String, String)>) -> (out: Vec<char>)
    ensures
        out@ == go_entries(pair_views(params@)),
{
    let ghost ps = pair_views(params@);
    let mut parts: Vec<Vec<char>> = Vec::new();
    let mut k: usize = 0;
    while k < params.len()
        invariant
            k <= params@.len(),
            ps == pair_views(params@),
            views(parts@) == Seq::new(
                k as nat,
                |i: int| "\""@ + ps[i].0 + "\": "@ + camel(ps[i].0),
            ),
        decreases params@.len() - k,
    {
        let name = chars_of(params[k].0.as_str());
        let mut d = chars_of("\"");
        extend_chars(&mut d, &name);
        extend_str(&mut d, "\": ");
        extend_chars(&mut d, &camel_chars(&name));
        push_piece(&mut parts, d);
        k = k + 1;
        assert(views(parts@) =~= Seq::new(
            k as nat,
            |i: int| "\""@ + ps[i].0 + "\": "@ + camel(ps[i].0),
        ));
    }
    join_all(&parts, ", ")
}

fn go_vars_chars(types: &Vec<Vec<char>>) -> (out: Vec<char>)
    ensures
        out@ == go_vars(views(types@)),
{
    let ghost ts = views(types@);
    let ghost lines = Seq::new(ts.len(), |i: int| "\tvar r"@ + dec(i) + " "@ + ts[i] + "\n"@);
    let mut out: Vec<char> = Vec::new();
    let mut k: usize = 0;
    while k < types.len()
        invariant
            k <= types@.len(),
            ts == views(types@),
            lines == Seq::new(ts.len(), |i: int| "\tvar r"@ + dec(i) + " "@ + ts[i] + "\n"@),
            out@ == concat_all(lines.take(k as int)),
        decreases types@.len() - k,
    {
        let ghost taken = lines.take(k + 1);
        assert(taken.drop_last() =~= lines.take(k as int));
        extend_str(&mut out, "\tvar r");
        extend_chars(&mut out, &decimal_chars(k));
        extend_str(&mut out, " ");
        extend_chars(&mut out, &types[k]);
        extend_str(&mut out, "\n");
        k = k + 1;
    }
    assert(lines.take(k as int) =~= lines);
    out
}

fn go_indexed_chars(prefix: &str, n: usize, last: Option<&str>) -> (out: Vec<char>)
    ensures
        out@ == join(
            match last {
                Some(l) => Seq::new(n as nat, |i: int| prefix@ + dec(i)).push(l@),
                None => Seq::new(n as nat, |i: int| prefix@ + dec(i)),
            },
            ", "@,
        ),
{
    let mut parts: Vec<Vec<char>> = Vec::new();
    let mut k: usize = 0;
    while k < n
        invariant
            k <= n,
            views(parts@) == Seq::new(k as nat, |i: int| prefix@ + dec(i)),
        decreases n - k,
    {
        let mut d = chars_of(prefix);
        extend_chars(&mut d, &decimal_chars(k));
        push_piece(&mut parts, d);
        k = k + 1;
        assert(views(parts@) =~= Seq::new(k as nat, |i: int| prefix@ + dec(i)));
    }
    match last {
        Some(l) => push_piece(&mut parts, chars_of(l)),
        None => {},
    }
    join_all(&parts, ", ")
}

/// The Go stub of `func_name` for a signature.
pub fn go_stub_chars(sig: &FunctionSig, func_name: &str) -> (out: Vec<char>)
    ensures
        out@ == go_stub(sig@, func_name@),
{
    let types = go_results_chars(&sig.return_types);
    let ghost ts = views(types@);
    let mut with_error: Vec<Vec<char>> = Vec::new();
    let mut k: usize = 0;
    while k < types.len()
        invariant
            k <= types@.len(),
            ts == views(types@),
            views(with_error@) == ts.take(k as int),
        decreases types@.len() - k,
    {
        push_piece(&mut with_error, copy_range(&types[k], 0, types[k].len()));
        assert(types@[k as int]@.subrange(0, types@[k as int]@.len() as int) =~= ts[k as int]);
        k = k + 1;
        assert(views(with_error@) =~= ts.take(k as int));
    }
    assert(ts.take(k as int) =~= ts);
    push_piece(&mut with_error, chars_of("error"));
    let mut results = chars_of("(");
    extend_chars(&mut results, &join_all(&with_error, ", "));
    extend_str(&mut results, ")");
    let name = chars_of(func_name);
    let mut v: Vec<Vec<char>> = Vec::new();
    v.push(exported_chars(func_name));
    v.push(go_decls_chars(&sig.params));
    v.push(results);
    v.push(go_vars_chars(&types));
    v.push(copy_range(&name, 0, name.len()));
    v.push(go_entries_chars(&sig.params));
    v.push(go_indexed_chars("&r", types.len(), None));
    v.push(go_indexed_chars("r", types.len(), Some("err")));
    v.push(copy_range(&name, 0, name.len()));
    v.push(copy_range(&name, 0, name.len()));
    assert(name@.subrange(0, name@.len() as int) =~= name@);
    assert(views(v@) =~= seq![
        go_exported(func_name@),
        go_decls(sig@.params),
        go_result_list(ts),
        go_vars(ts),
        func_name@,
        go_entries(sig@.params),
        go_refs(ts.len()),
        go_return_values(ts.len()),
        func_name@,
        func_name@,
    ]);
    fill_chars(GO_STUB.as_slice(), &v)
}

/// The Go type of a source type depends on what the type is: every float
/// name is a `float64`, every integer name an `int`, every text name a
/// `string` and every boolean name a `bool`.
pub proof fn law_go_type_by_kind(ty: Seq<char>)
    ensures
        trim(ty) == "f64"@ || trim(ty) == "f32"@ || trim(ty) == "float"@ || trim(ty) == "Float"@
            ==> go_type_for(ty) == "float64"@,
        trim(ty) == "i64"@ || trim(ty) == "i32"@ || trim(ty) == "int"@ || trim(ty) == "Int"@
            ==> go_type_for(ty) == "int"@,
        trim(ty) == "str"@ || trim(ty) == "String"@ || trim(ty) == "string"@ ==> go_type_for(ty)
            == "string"@,
        trim(ty) == "bool"@ || trim(ty) == "Bool"@ ==> go_type_for(ty) == "bool"@,
{
    reveal_strlit("int");
    reveal_strlit("Int");
    reveal_strlit("i32");
    reveal_strlit("i64");
    reveal_strlit("float");
    reveal_strlit("Float");
    reveal_strlit("f32");
    reveal_strlit("f64");
    reveal_strlit("str");
    reveal_strlit("String");
    reveal_strlit("string");
    reveal_strlit("bool");
    reveal_strlit("Bool");
    assert("f64"@[0] != "int"@[0]);
    assert("f64"@[0] != "Int"@[0]);
    assert("f64"@[0] != "i32"@[0]);
    assert("f64"@[0] != "i64"@[0]);
    assert("f64"@[1] != "f32"@[1]);
    assert("f64"@[0] != "str"@[0]);
    assert("f32"@[0] != "int"@[0]);
    assert("f32"@[0] != "Int"@[0]);
    assert("f32"@[0] != "i32"@[0]);
    assert("f32"@[0] != "i64"@[0]);
    assert("f32"@[1] != "f64"@[1]);
    assert("f32"@[0] != "str"@[0]);
    assert("float"@[0] != "Float"@[0]);
    assert("Float"@[0] != "float"@[0]);
    assert("i64"@[1] != "int"@[1]);
    assert("i64"@[0] != "Int"@[0]);
    assert("i64"@[1] != "i32"@[1]);
    assert("i64"@[0] != "f32"@[0]);
    assert("i64"@[0] != "f64"@[0]);
    assert("i64"@[0] != "str"@[0]);
    assert("i32"@[1] != "int"@[1]);
    assert("i32"@[0] != "Int"@[0]);
    assert("i32"@[1] != "i64"@[1]);
    assert("i32"@[0] != "f32"@[0]);
    assert("i32"@[0] != "f64"@[0]);
    assert("i32"@[0] != "str"@[0]);
    assert("int"@[0] != "Int"@[0]);
    assert("int"@[1] != "i32"@[1]);
    assert("int"@[1] != "i64"@[1]);
    assert("int"@[0] != "f32"@[0]);
    assert("int"@[0] != "f64"@[0]);
    assert("int"@[0] != "str"@[0]);
    assert("Int"@[0] != "int"@[0]);
    assert("Int"@[0] != "i32"@[0]);
    assert("Int"@[0] != "i64"@[0]);
    assert("Int"@[0] != "f32"@[0]);
    assert("Int"@[0] != "f64"@[0]);
    assert("Int"@[0] != "str"@[0]);
    assert("str"@[0] != "int"@[0]);
    assert("str"@[0] != "Int"@[0]);
    assert("str"@[0] != "i32"@[0]);
    assert("str"@[0] != "i64"@[0]);
    assert("str"@[0] != "f32"@[0]);
    assert("str"@[0] != "f64"@[0]);
    assert("String"@[0] != "string"@[0]);
    assert("string"@[0] != "String"@[0]);
    assert("bool"@[0] != "Bool"@[0]);
    assert("Bool"@[0] != "bool"@[0]);
}

/// A camel-case name keeps every character but the underscores, in order: a
/// name without `_` is unchanged.
pub proof fn law_camel_keeps_names_without_underscores(s: Seq<char>)
    requires
        forall|i: int| 0 <= i < s.len() ==> s[i] != '_',
    ensures
        camel(s) == s,
{
    lemma_camel_from_plain(s);
}

proof fn lemma_camel_from_plain(s: Seq<char>)
    requires
        forall|i: int| 0 <= i < s.len() ==> s[i] != '_',
    ensures
        camel_from(s, false) == s,
    decreases s.len(),
{
    if s.len() > 0 {
        lemma_camel_from_plain(s.skip(1));
        assert(seq![s[0]] + s.skip(1) =~= s);
    }
}

} // verus!
