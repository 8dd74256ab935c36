//! The provider programs that `export` writes for sources in compiled
//! languages (Rust, Go, C, Java and C#): each declares or imports the real
//! function, decodes each request's JSON arguments, calls the function and
//! answers with a JSON object holding its `result`.
use crate::export_templates::{
    CSHARP_PROVIDER, C_PROVIDER, GO_PROVIDER, JAVA_PROVIDER, RUST_PROVIDER,
};
use crate::signature::{pair_views, FunctionSig, SigView};
use crate::stub::dec;
use crate::template::{fill, fill_chars, str_views};
use crate::text::{
    chars_of, concat_all, copy_range, decimal_chars, extend_chars, extend_str, find, find_chars,
    find_char, index_of, is_text, join, join_range, occurs_at, starts_with, trim, trim_chars, views,
};
use vstd::prelude::*;

verus! {

/// The source languages whose providers are compiled programs.
pub open spec fn is_compiled_source(lang: Seq<char>) -> bool {
    lang == "rust"@ || lang == "go"@ || lang == "c"@ || lang == "java"@ || lang == "csharp"@
}

/// A C name without the `*`s that the C parser leaves in front of it.
pub open spec fn strip_stars(n: Seq<char>) -> Seq<char>
    decreases n.len(),
{
    if n.len() > 0 && n[0] == '*' {
        strip_stars(n.skip(1))
    } else {
        n
    }
}

/// The C types (with the name the C parser read) that the C provider decodes as text.
pub open spec fn c_text_param(t: Seq<char>, name: Seq<char>) -> bool {
    find(t, "char"@) is Some && (index_of(t, '*') is Some || (name.len() > 0 && name[0] == '*'))
}

/// The C types that the C provider treats as booleans.
pub open spec fn c_flag_type(t: Seq<char>) -> bool {
    t == "bool"@ || t == "_Bool"@
}

/// The C types that the C provider treats as floating-point numbers.
pub open spec fn c_real_type(t: Seq<char>) -> bool {
    find(t, "double"@) is Some || find(t, "float"@) is Some
}

/// The Java types that the Java provider parses as whole numbers.
pub open spec fn java_whole_type(t: Seq<char>) -> bool {
    t == "int"@ || t == "long"@ || t == "short"@ || t == "byte"@
}

/// The owned Rust type a provider decodes an argument into: `&str` becomes
/// `String`, `&[T]` becomes `Vec<T>`, and another borrowed `&T` becomes `T`.
pub open spec fn rust_owned(t: Seq<char>) -> Seq<char> {
    if t == "&str"@ {
        "String"@
    } else if t.len() >= 3 && occurs_at(t, "&["@, 0) && t.last() == ']' {
        "Vec<"@ + t.subrange(2, t.len() - 1) + ">"@
    } else if t.len() >= 1 && t[0] == '&' {
        trim(t.skip(1))
    } else {
        t
    }
}

/// The line of a provider in `lang` that decodes the argument `name` of type
/// `ty` from the request's JSON object, where it is keyed by `name`.
pub open spec fn provider_arg_line(lang: Seq<char>, name: Seq<char>, ty: Seq<char>) -> Seq<char> {
    let t = trim(ty);
    if lang == "rust"@ {
        "            let "@ + name + ": "@ + rust_owned(t) + " = serde_json::from_value(req[\""@
            + name + "\"].clone()).map_err(|e| e.to_string())?;\n"@
    } else if lang == "go"@ {
        "\t\t\tvar "@ + name + " "@ + (if t == "Data"@ {
            "interface{}"@
        } else {
            t
        }) + "\n\t\t\t_ = json.Unmarshal(req[\""@ + name + "\"], &"@ + name + ")\n"@
    } else if lang == "c"@ {
        let get = "metro_field(req, \""@ + name + "\")"@;
        let v = strip_stars(name);
        if c_text_param(t, name) {
            "            char *"@ + v + " = metro_text("@ + get + ");\n"@
        } else if c_flag_type(t) {
            "            int "@ + v + " = strncmp("@ + get + ", \"true\", 4) == 0;\n"@
        } else if c_real_type(t) {
            "            double "@ + v + " = strtod("@ + get + ", NULL);\n"@
        } else {
            "            long long "@ + v + " = strtoll("@ + get + ", NULL, 10);\n"@
        }
    } else if lang == "java"@ {
        let get = "field(req, \""@ + name + "\")"@;
        if t == "boolean"@ {
            "                boolean "@ + name + " = "@ + get + ".startsWith(\"true\");\n"@
        } else if t == "double"@ || t == "float"@ {
            "                "@ + t + " "@ + name + " = ("@ + t + ") Double.parseDouble(number("@
                + get + "));\n"@
        } else if java_whole_type(t) {
            "                "@ + t + " "@ + name + " = ("@ + t + ") Long.parseLong(number("@ + get
                + "));\n"@
        } else {
            "                String "@ + name + " = text("@ + get + ");\n"@
        }
    } else {
        "                var "@ + name + " = req.RootElement.GetProperty(\""@ + name
            + "\").Deserialize<"@ + t + ">();\n"@
    }
}

/// The argument that a provider in `lang` passes for the parameter `name` of type `ty`.
pub open spec fn provider_call_arg(lang: Seq<char>, name: Seq<char>, ty: Seq<char>) -> Seq<char> {
    let t = trim(ty);
    if lang == "rust"@ && t.len() >= 1 && t[0] == '&' {
        "&"@ + name
    } else if lang == "c"@ {
        strip_stars(name)
    } else {
        name
    }
}

/// The decoding lines of all arguments.
pub open spec fn provider_args(lang: Seq<char>, params: Seq<(Seq<char>, Seq<char>)>) -> Seq<char> {
    concat_all(Seq::new(params.len(), |i: int| provider_arg_line(lang, params[i].0, params[i].1)))
}

/// The arguments of the provider's call, separated by `, `.
pub open spec fn provider_call_args(
    lang: Seq<char>,
    params: Seq<(Seq<char>, Seq<char>)>,
) -> Seq<char> {
    join(Seq::new(params.len(), |i: int| provider_call_arg(lang, params[i].0, params[i].1)), ", "@)
}

/// The source return type of a signature, trimmed; `void` where it has none.
pub open spec fn source_return(return_types: Seq<(Seq<char>, Seq<char>)>) -> Seq<char> {
    if return_types.len() > 0 {
        trim(return_types[0].1)
    } else {
        "void"@
    }
}

/// The names `r0`, `r1`, ... of `n` results, separated by `, `.
pub open spec fn result_names(n: nat) -> Seq<char> {
    join(Seq::new(n, |i: int| "r"@ + dec(i)), ", "@)
}

/// The lines of a provider in `lang` that call the function and hold what it
/// returns (`result` in Rust, Go and C, `value` as JSON text or an object in
/// Java and C#); in C they also write the JSON reply, of `k` bytes.
pub open spec fn provider_result(
    lang: Seq<char>,
    module: Seq<char>,
    name: Seq<char>,
    call: Seq<char>,
    return_types: Seq<(Seq<char>, Seq<char>)>,
) -> Seq<char> {
    let r = source_return(return_types);
    let k = return_types.len();
    if lang == "rust"@ {
        "            let result = "@ + module + "::"@ + name + "("@ + call + ");\n"@
    } else if lang == "go"@ {
        if k == 0 {
            "\t\t\t"@ + name + "("@ + call + ")\n\t\t\tvar result interface{}\n"@
        } else {
            "\t\t\t"@ + result_names(k) + " := "@ + name + "("@ + call + ")\n\t\t\tresult := "@ + (
            if k == 1 {
                "r0"@
            } else {
                "[]interface{}{"@ + result_names(k) + "}"@
            }) + "\n"@
        }
    } else if lang == "c"@ {
        let invoke = name + "("@ + call + ")"@;
        if r == "void"@ {
            "            "@ + invoke
                + ";\n            int k = snprintf(buf + 32, room, \"{\\\"result\\\": null}\");\n"@
        } else if c_text_param(r, ""@) {
            "            const char *result = "@ + invoke
                + ";\n            int k = snprintf(buf + 32, room, \"{\\\"result\\\": \\\"%s\\\"}\", result ? result : \"\");\n"@
        } else if c_flag_type(r) {
            "            int result = "@ + invoke
                + " ? 1 : 0;\n            int k = snprintf(buf + 32, room, \"{\\\"result\\\": %s}\", result ? \"true\" : \"false\");\n"@
        } else if c_real_type(r) {
            "            double result = (double)"@ + invoke
                + ";\n            int k = snprintf(buf + 32, room, \"{\\\"result\\\": %.17g}\", result);\n"@
        } else {
            "            long long result = (long long)"@ + invoke
                + ";\n            int k = snprintf(buf + 32, room, \"{\\\"result\\\": %lld}\", result);\n"@
        }
    } else if lang == "java"@ {
        let invoke = module + "."@ + name + "("@ + call + ")"@;
        if r == "void"@ {
            "                "@ + invoke + ";\n                String value = \"null\";\n"@
        } else if r == "String"@ {
            "                String value = quote(String.valueOf("@ + invoke + "));\n"@
        } else {
            "                String value = String.valueOf("@ + invoke + ");\n"@
        }
    } else {
        let invoke = module + "."@ + name + "("@ + call + ")"@;
        if r == "void"@ {
            "                "@ + invoke + ";\n                object value = null;\n"@
        } else {
            "                object value = "@ + invoke + ";\n"@
        }
    }
}

/// The parameter list of a C prototype, as the source wrote it: each type,
/// a space, and the name.
pub open spec fn c_source_decls(params: Seq<(Seq<char>, Seq<char>)>) -> Seq<char> {
    join(Seq::new(params.len(), |i: int| params[i].1 + " "@ + params[i].0), ", "@)
}

/// The provider program for a signature read from a source in a compiled
/// language, whose module (or class) is `module`.
pub open spec fn compiled_provider(sig: SigView, module: Seq<char>) -> Seq<char> {
    let lang = sig.source_lang;
    let n = sig.name;
    let args = provider_args(lang, sig.params);
    let result = provider_result(
        lang,
        module,
        n,
        provider_call_args(lang, sig.params),
        sig.return_types,
    );
    if lang == "rust"@ {
        fill(str_views(RUST_PROVIDER@), seq![n, module, n, module, n, n, args, result])
    } else if lang == "go"@ {
        fill(str_views(GO_PROVIDER@), seq![n, module, n, module, n, n, args, result])
    } else if lang == "c"@ {
        fill(
            str_views(C_PROVIDER@),
            seq![
                n,
                module,
                n,
                module,
                source_return(sig.return_types),
                n,
                c_source_decls(sig.params),
                n,
                n,
                args,
                result,
            ],
        )
    } else if lang == "java"@ {
        fill(str_views(JAVA_PROVIDER@), seq![n, module, module, n, module, n, n, args, result])
    } else {
        fill(str_views(CSHARP_PROVIDER@), seq![n, module, module, n, n, n, args, result])
    }
}

// ---------------------------------------------------------------- exec

fn strip_stars_chars(n: &[char]) -> (out: Vec<char>)
    ensures
        out@ == strip_stars(n@),
{
    let mut i: usize = 0;
    assert(n@.skip(0) =~= n@);
    while i < n.len() && n[i] == '*'
        invariant
            i <= n@.len(),
            strip_stars(n@.skip(i as int)) == strip_stars(n@),
        decreases n@.len() - i,
    {
        assert(n@.skip(i as int).skip(1) =~= n@.skip(i + 1));
        i = i + 1;
    }
    let out = copy_range(n, i, n.len());
    assert(out@ =~= n@.skip(i as int));
    out
}

fn has_text(t: &[char], w: &str) -> (b: bool)
    ensures
        b == (find(t@, w@) is Some),
{
    find_chars(t, &chars_of(w)).is_some()
}

fn c_text_param_of(t: &[char], name: &[char]) -> (b: bool)
    ensures
        b == c_text_param(t@, name@),
{
    has_text(t, "char") && (find_char(t, '*').is_some() || (name.len() > 0 && name[0] == '*'))
}

fn c_real_type_of(t: &[char]) -> (b: bool)
    ensures
        b == c_real_type(t@),
{
    has_text(t, "double") || has_text(t, "float")
}

fn rust_owned_chars(t: &[char]) -> (out: Vec<char>)
    ensures
        out@ == rust_owned(t@),
{
    let n = t.len();
    if is_text(t, "&str") {
        chars_of("String")
    } else if n >= 3 && starts_with(t, &chars_of("&[")) && t[n - 1] == ']' {
        let mut o = chars_of("Vec<");
        extend_chars(&mut o, &copy_range(t, 2, n - 1));
        extend_str(&mut o, ">");
        o
    } else if n >= 1 && t[0] == '&' {
        let rest = copy_range(t, 1, n);
        assert(rest@ =~= t@.skip(1));
        trim_chars(&rest)
    } else {
        copy_range(t, 0, n)
    }
}

fn provider_arg_line_chars(lang: &str, name: &[char], ty: &str) -> (out: Vec<char>)
    ensures
        out@ == provider_arg_line(lang@, name@, ty@),
{
    let t = trim_chars(&chars_of(ty));
    let mut o: Vec<char> = Vec::new();
    if str_eq_chars(lang, "rust") {
        extend_str(&mut o, "            let ");
        extend_chars(&mut o, name);
        extend_str(&mut o, ": ");
        extend_chars(&mut o, &rust_owned_chars(&t));
        extend_str(&mut o, " = serde_json::from_value(req[\"");
        extend_chars(&mut o, name);
        extend_str(&mut o, "\"].clone()).map_err(|e| e.to_string())?;\n");
    } else if str_eq_chars(lang, "go") {
        extend_str(&mut o, "\t\t\tvar ");
        extend_chars(&mut o, name);
        extend_str(&mut o, " ");
        if is_text(&t, "Data") {
            extend_str(&mut o, "interface{}");
        } else {
            extend_chars(&mut o, &t);
        }
        extend_str(&mut o, "\n\t\t\t_ = json.Unmarshal(req[\"");
        extend_chars(&mut o, name);
        extend_str(&mut o, "\"], &");
        extend_chars(&mut o, name);
        extend_str(&mut o, ")\n");
    } else if str_eq_chars(lang, "c") {
        let v = strip_stars_chars(name);
        let mut get = chars_of("metro_field(req, \"");
        extend_chars(&mut get, name);
        extend_str(&mut get, "\")");
        if c_text_param_of(&t, name) {
            extend_str(&mut o, "            char *");
            extend_chars(&mut o, &v);
            extend_str(&mut o, " = metro_text(");
            extend_chars(&mut o, &get);
            extend_str(&mut o, ");\n");
        } else if is_text(&t, "bool") || is_text(&t, "_Bool") {
            extend_str(&mut o, "            int ");
            extend_chars(&mut o, &v);
            extend_str(&mut o, " = strncmp(");
            extend_chars(&mut o, &get);
            extend_str(&mut o, ", \"true\", 4) == 0;\n");
        } else if c_real_type_of(&t) {
            extend_str(&mut o, "            double ");
            extend_chars(&mut o, &v);
            extend_str(&mut o, " = strtod(");
            extend_chars(&mut o, &get);
            extend_str(&mut o, ", NULL);\n");
        } else {
            extend_str(&mut o, "            long long ");
            extend_chars(&mut o, &v);
            extend_str(&mut o, " = strtoll(");
            extend_chars(&mut o, &get);
            extend_str(&mut o, ", NULL, 10);\n");
        }
    } else if str_eq_chars(lang, "java") {
        let mut get = chars_of("field(req, \"");
        extend_chars(&mut get, name);
        extend_str(&mut get, "\")");
        if is_text(&t, "boolean") {
            extend_str(&mut o, "                boolean ");
            extend_chars(&mut o, name);
            extend_str(&mut o, " = ");
            extend_chars(&mut o, &get);
            extend_str(&mut o, ".startsWith(\"true\");\n");
        } else if is_text(&t, "double") || is_text(&t, "float") || is_text(&t, "int") || is_text(
            &t,
            "long",
        ) || is_text(&t, "short") || is_text(&t, "byte") {
            let fractional = is_text(&t, "double") || is_text(&t, "float");
            extend_str(&mut o, "                ");
            extend_chars(&mut o, &t);
            extend_str(&mut o, " ");
            extend_chars(&mut o, name);
            extend_str(&mut o, " = (");
            extend_chars(&mut o, &t);
            if fractional {
                extend_str(&mut o, ") Double.parseDouble(number(");
            } else {
                extend_str(&mut o, ") Long.parseLong(number(");
            }
            extend_chars(&mut o, &get);
            extend_str(&mut o, "));\n");
        } else {
            extend_str(&mut o, "                String ");
            extend_chars(&mut o, name);
            extend_str(&mut o, " = text(");
            extend_chars(&mut o, &get);
            extend_str(&mut o, ");\n");
        }
    } else {
        extend_str(&mut o, "                var ");
        extend_chars(&mut o, name);
        extend_str(&mut o, " = req.RootElement.GetProperty(\"");
        extend_chars(&mut o, name);
        extend_str(&mut o, "\").Deserialize<");
        extend_chars(&mut o, &t);
        extend_str(&mut o, ">();\n");
    }
    assert(o@ =~= provider_arg_line(lang@, name@, ty@));
    o
}

fn str_eq_chars(a: &str, b: &str) -> (r: bool)
    ensures
        r == (a@ == b@),
{
    crate::text::str_eq(a, b)
}

fn provider_call_arg_chars(lang: &str, name: &[char], ty: &str) -> (out: Vec<char>)
    ensures
        out@ == provider_call_arg(lang@, name@, ty@),
{
    let t = trim_chars(&chars_of(ty));
    if str_eq_chars(lang, "rust") && t.len() >= 1 && t[0] == '&' {
        let mut o = chars_of("&");
        extend_chars(&mut o, name);
        o
    } else if str_eq_chars(lang, "c") {
        strip_stars_chars(name)
    } else {
        copy_range(name, 0, name.len())
    }
}

fn provider_args_chars(lang: &str, params: &Vec<(String, String)>) -> (out: Vec<char>)
    ensures
        out@ == provider_args(lang@, pair_views(params@)),
{
    let ghost ps = pair_views(params@);
    let ghost lines = Seq::new(ps.len(), |i: int| provider_arg_line(lang@, ps[i].0, ps[i].1));
    let mut out: Vec<char> = Vec::new();
    let mut k: usize = 0;
    while k < params.len()
        invariant
            k <= params@.len(),
            ps == pair_views(params@),
            lines == Seq::new(ps.len(), |i: int| provider_arg_line(lang@, ps[i].0, ps[i].1)),
            out@ == concat_all(lines.take(k as int)),
        decreases params@.len() - k,
    {
        assert(lines.take(k + 1).drop_last() =~= lines.take(k as int));
        let line = provider_arg_line_chars(lang, &chars_of(params[k].0.as_str()), params[k].1.as_str());
        extend_chars(&mut out, &line);
        k = k + 1;
    }
    assert(lines.take(k as int) =~= lines);
    out
}

/// The pieces joined with `sep`.
fn join_all(parts: &Vec<Vec<char>>, sep: &str) -> (out: Vec<char>)
    ensures
        out@ == join(views(parts@), sep@),
{
    let n = parts.len();
    let out = join_range(parts, 0, n, &chars_of(sep));
    assert(parts@.subrange(0, n as int) =~= parts@);
    out
}

fn push_piece(parts: &mut Vec<Vec<char>>, piece: Vec<char>)
    ensures
        views(final(parts)@) == views(old(parts)@).push(piece@),
{
    parts.push(piece);
    assert(views(parts@) =~= views(old(parts)@).push(piece@));
}

fn provider_call_args_chars(lang: &str, params: &Vec<(String, String)>) -> (out: Vec<char>)
    ensures
        out@ == provider_call_args(lang@, pair_views(params@)),
{
    let ghost ps = pair_views(params@);
    let mut parts: Vec<Vec<char>> = Vec::new();
    let mut k: usize = 0;
    while k < params.len()
        invariant
            k <= params@.len(),
            ps == pair_views(params@),
            views(parts@) == Seq::new(k as nat, |i: int| provider_call_arg(lang@, ps[i].0, ps[i].1)),
        decreases params@.len() - k,
    {
        let a = provider_call_arg_chars(lang, &chars_of(params[k].0.as_str()), params[k].1.as_str());
        push_piece(&mut parts, a);
        k = k + 1;
        assert(views(parts@) =~= Seq::new(
            k as nat,
            |i: int| provider_call_arg(lang@, ps[i].0, ps[i].1),
        ));
    }
    join_all(&parts, ", ")
}

fn result_names_chars(n: usize) -> (out: Vec<char>)
    ensures
        out@ == result_names(n as nat),
{
    let mut parts: Vec<Vec<char>> = Vec::new();
    let mut k: usize = 0;
    while k < n
        invariant
            k <= n,
            views(parts@) == Seq::new(k as nat, |i: int| "r"@ + dec(i)),
        decreases n - k,
    {
        let mut d = chars_of("r");
        extend_chars(&mut d, &decimal_chars(k));
        push_piece(&mut parts, d);
        k = k + 1;
        assert(views(parts@) =~= Seq::new(k as nat, |i: int| "r"@ + dec(i)));
    }
    join_all(&parts, ", ")
}

fn source_return_chars(return_types: &Vec<(String, String)>) -> (out: Vec<char>)
    ensures
        out@ == source_return(pair_views(return_types@)),
{
    if return_types.len() > 0 {
        trim_chars(&chars_of(return_types[0].1.as_str()))
    } else {
        chars_of("void")
    }
}

fn provider_result_chars(
    lang: &str,
    module: &[char],
    name: &[char],
    call: &[char],
    return_types: &Vec<(String, String)>,
) -> (out: Vec<char>)
    ensures
        out@ == provider_result(lang@, module@, name@, call@, pair_views(return_types@)),
{
    let r = source_return_chars(return_types);
    let k = return_types.len();
    let mut o: Vec<char> = Vec::new();
    if str_eq_chars(lang, "rust") {
        extend_str(&mut o, "            let result = ");
        extend_chars(&mut o, module);
        extend_str(&mut o, "::");
        extend_chars(&mut o, name);
        extend_str(&mut o, "(");
        extend_chars(&mut o, call);
        extend_str(&mut o, ");\n");
    } else if str_eq_chars(lang, "go") {
        if k == 0 {
            extend_str(&mut o, "\t\t\t");
            extend_chars(&mut o, name);
            extend_str(&mut o, "(");
            extend_chars(&mut o, call);
            extend_str(&mut o, ")\n\t\t\tvar result interface{}\n");
        } else {
            let names = result_names_chars(k);
            extend_str(&mut o, "\t\t\t");
            extend_chars(&mut o, &names);
            extend_str(&mut o, " := ");
            extend_chars(&mut o, name);
            extend_str(&mut o, "(");
            extend_chars(&mut o, call);
            extend_str(&mut o, ")\n\t\t\tresult := ");
            if k == 1 {
                extend_str(&mut o, "r0");
            } else {
                extend_str(&mut o, "[]interface{}{");
                extend_chars(&mut o, &names);
                extend_str(&mut o, "}");
            }
            extend_str(&mut o, "\n");
        }
    } else if str_eq_chars(lang, "c") {
        let mut invoke = copy_range(name, 0, name.len());
        extend_str(&mut invoke, "(");
        extend_chars(&mut invoke, call);
        extend_str(&mut invoke, ")");
        assert(name@.subrange(0, name@.len() as int) =~= name@);
        if is_text(&r, "void") {
            extend_str(&mut o, "            ");
            extend_chars(&mut o, &invoke);
            extend_str(&mut o, ";\n            int k = snprintf(buf + 32, room, \"{\\\"result\\\": null}\");\n");
        } else if c_text_param_of(&r, &chars_of("")) {
            extend_str(&mut o, "            const char *result = ");
            extend_chars(&mut o, &invoke);
            extend_str(&mut o, ";\n            int k = snprintf(buf + 32, room, \"{\\\"result\\\": \\\"%s\\\"}\", result ? result : \"\");\n");
        } else if is_text(&r, "bool") || is_text(&r, "_Bool") {
            extend_str(&mut o, "            int result = ");
            extend_chars(&mut o, &invoke);
            extend_str(&mut o, " ? 1 : 0;\n            int k = snprintf(buf + 32, room, \"{\\\"result\\\": %s}\", result ? \"true\" : \"false\");\n");
        } else if c_real_type_of(&r) {
            extend_str(&mut o, "            double result = (double)");
            extend_chars(&mut o, &invoke);
            extend_str(&mut o, ";\n            int k = snprintf(buf + 32, room, \"{\\\"result\\\": %.17g}\", result);\n");
        } else {
            extend_str(&mut o, "            long long result = (long long)");
            extend_chars(&mut o, &invoke);
            extend_str(&mut o, ";\n            int k = snprintf(buf + 32, room, \"{\\\"result\\\": %lld}\", result);\n");
        }
    } else {
        let mut invoke = copy_range(module, 0, module.len());
        extend_str(&mut invoke, ".");
        extend_chars(&mut invoke, name);
        extend_str(&mut invoke, "(");
        extend_chars(&mut invoke, call);
        extend_str(&mut invoke, ")");
        assert(module@.subrange(0, module@.len() as int) =~= module@);
        if str_eq_chars(lang, "java") {
            if is_text(&r, "void") {
                extend_str(&mut o, "                ");
                extend_chars(&mut o, &invoke);
                extend_str(&mut o, ";\n                String value = \"null\";\n");
            } else if is_text(&r, "String") {
                extend_str(&mut o, "                String value = quote(String.valueOf(");
                extend_chars(&mut o, &invoke);
                extend_str(&mut o, "));\n");
            } else {
                extend_str(&mut o, "                String value = String.valueOf(");
                extend_chars(&mut o, &invoke);
                extend_str(&mut o, ");\n");
            }
        } else if is_text(&r, "void") {
            extend_str(&mut o, "                ");
            extend_chars(&mut o, &invoke);
            extend_str(&mut o, ";\n                object value = null;\n");
        } else {
            extend_str(&mut o, "                object value = ");
            extend_chars(&mut o, &invoke);
            extend_str(&mut o, ";\n");
        }
    }
    proof {
        reveal_strlit("");
    }
    assert(o@ =~= provider_result(lang@, module@, name@, call@, pair_views(return_types@)));
    o
}

fn c_source_decls_chars(params: &Vec<(String, String)>) -> (out: Vec<char>)
    ensures
        out@ == c_source_decls(pair_views(params@)),
{
    let ghost ps = pair_views(params@);
    let mut parts: Vec<Vec<char>> = Vec::new();
    let mut k: usize = 0;
    while k < params.len()
        invariant
            k <= params@.len(),
            ps == pair_views(params@),
            views(parts@) == Seq::new(k as nat, |i: int| ps[i].1 + " "@ + ps[i].0),
        decreases params@.len() - k,
    {
        let mut d = chars_of(params[k].1.as_str());
        extend_str(&mut d, " ");
        extend_str(&mut d, params[k].0.as_str());
        push_piece(&mut parts, d);
        k = k + 1;
        assert(views(parts@) =~= Seq::new(k as nat, |i: int| ps[i].1 + " "@ + ps[i].0));
    }
    join_all(&parts, ", ")
}

/// The provider program for a signature from a source in a compiled language.
pub fn compiled_provider_chars(sig: &FunctionSig, module: &[char]) -> (out: Vec<char>)
    requires
        is_compiled_source(sig@.source_lang),
    ensures
        out@ == compiled_provider(sig@, module@),
{
    let lang = sig.source_lang.as_str();
    let n = chars_of(sig.name.as_str());
    let args = provider_args_chars(lang, &sig.params);
    let call = provider_call_args_chars(lang, &sig.params);
    let result = provider_result_chars(lang, module, &n, &call, &sig.return_types);
    let m = copy_range(module, 0, module.len());
    assert(module@.subrange(0, module@.len() as int) =~= module@);
    let mut v: Vec<Vec<char>> = Vec::new();
    if str_eq_chars(lang, "rust") || str_eq_chars(lang, "go") {
        v.push(n.clone());
        v.push(m.clone());
        v.push(n.clone());
        v.push(m.clone());
        v.push(n.clone());
        v.push(n.clone());
        v.push(args);
        v.push(result);
        assert(views(v@) =~= seq![n@, m@, n@, m@, n@, n@, args@, result@]);
        if str_eq_chars(lang, "rust") {
            fill_chars(RUST_PROVIDER.as_slice(), &v)
        } else {
            fill_chars(GO_PROVIDER.as_slice(), &v)
        }
    } else if str_eq_chars(lang, "c") {
        let ret = source_return_chars(&sig.return_types);
        let decls = c_source_decls_chars(&sig.params);
        v.push(n.clone());
        v.push(m.clone());
        v.push(n.clone());
        v.push(m.clone());
        v.push(ret);
        v.push(n.clone());
        v.push(decls);
        v.push(n.clone());
        v.push(n.clone());
        v.push(args);
        v.push(result);
        assert(views(v@) =~= seq![
            n@,
            m@,
            n@,
            m@,
            source_return(sig@.return_types),
            n@,
            c_source_decls(sig@.params),
            n@,
            n@,
            args@,
            result@,
        ]);
        fill_chars(C_PROVIDER.as_slice(), &v)
    } else if str_eq_chars(lang, "java") {
        v.push(n.clone());
        v.push(m.clone());
        v.push(m.clone());
        v.push(n.clone());
        v.push(m.clone());
        v.push(n.clone());
        v.push(n.clone());
        v.push(args);
        v.push(result);
        assert(views(v@) =~= seq![n@, m@, m@, n@, m@, n@, n@, args@, result@]);
        fill_chars(JAVA_PROVIDER.as_slice(), &v)
    } else {
        v.push(n.clone());
        v.push(m.clone());
        v.push(m.clone());
        v.push(n.clone());
        v.push(n.clone());
        v.push(n.clone());
        v.push(args);
        v.push(result);
        assert(views(v@) =~= seq![n@, m@, m@, n@, n@, n@, args@, result@]);
        fill_chars(CSHARP_PROVIDER.as_slice(), &v)
    }
}

} // verus!
