//! The client stubs that `bind` and `connect --gen-stubs` write for a service.
use crate::service_templates::{
    BASH_CLIENT, CSHARP_CLIENT, C_CLIENT_HEADER, GO_CLIENT, JAVA_CLIENT, JS_CLIENT, PYTHON_CLIENT,
    RUBY_CLIENT, RUST_CLIENT, SERVICE_DEFINITION,
};
use crate::header::{header_functions, header_prototypes, sig_views};
use crate::signature::{pair_views, SigView};
use crate::stub::{file_stem_of, path_file_stem};
use crate::template::{fill, fill_template, str_views};
use crate::text::{
    chars_of, copy_range, extend_chars, extend_str, string_of, to_uppercase, to_vec, uppercase_of,
    views,
};
use vstd::prelude::*;

verus! {

/// A character in upper case if it is an ASCII lower-case letter, else unchanged.
pub open spec fn ascii_upper(c: char) -> char {
    if 'a' <= c <= 'z' {
        ((c as u32) - 32) as char
    } else {
        c
    }
}

/// The service name can be capitalized: its first character takes one byte.
pub open spec fn capitalizable(name: Seq<char>) -> bool {
    name.len() > 0 && (name[0] as u32) < 128
}

/// The service name with its first letter in upper case.
pub open spec fn capitalized(name: Seq<char>) -> Seq<char> {
    seq![ascii_upper(name[0])] + name.skip(1)
}

/// Capitalizing a name changes at most its first character: a lower-case
/// ASCII first letter becomes the same letter in upper case, any other first
/// character (an upper-case letter among them) stays as it is, and the rest of
/// the name is unchanged.
pub proof fn law_capitalized_changes_only_a_lower_case_first_letter(name: Seq<char>)
    requires
        name.len() > 0,
    ensures
        capitalized(name).len() == name.len(),
        capitalized(name).skip(1) == name.skip(1),
        'a' <= name[0] <= 'z' ==> 'A' <= capitalized(name)[0] <= 'Z' && capitalized(name)[0] as u32
            + 32 == name[0] as u32,
        !('a' <= name[0] <= 'z') ==> capitalized(name)[0] == name[0],
{
    assert(capitalized(name).skip(1) =~= name.skip(1));
}

/// Whether a service name can be capitalized, as the class names of the
/// Python, JavaScript, Rust, Go, Java, C# and Ruby clients need.
pub fn is_capitalizable(name: &str) -> (b: bool)
    ensures
        b == capitalizable(name@),
{
    let n = chars_of(name);
    n.len() > 0 && (n[0] as u32) < 128
}

fn capitalize(name: &[char]) -> (out: Vec<char>)
    requires
        capitalizable(name@),
    ensures
        out@ == capitalized(name@),
{
    let c = name[0];
    let first = if 'a' <= c && c <= 'z' {
        (((c as u32) - 32) as u8) as char
    } else {
        c
    };
    let mut out: Vec<char> = Vec::new();
    out.push(first);
    let rest = copy_range(name, 1, name.len());
    extend_chars(&mut out, &rest);
    assert(out@ =~= capitalized(name@));
    out
}

/// The languages that service clients are written in.
#[derive(Clone, Copy)]
pub enum ClientLang {
    C,
    Python,
    Js,
    Rust,
    Go,
    Java,
    CSharp,
    Ruby,
    Bash,
}

/// Whether the client for `lang` uses the capitalized service name.
pub open spec fn needs_capital(lang: ClientLang) -> bool {
    !(lang is C || lang is Bash)
}

/// The file name and content of the client for `lang` of the service `name`.
pub open spec fn client_stub(lang: ClientLang, name: Seq<char>) -> (Seq<char>, Seq<char>) {
    let cap = capitalized(name);
    let file = "metropipe_"@ + name;
    match lang {
        ClientLang::C => (
            file + ".h"@,
            fill(
                str_views(C_CLIENT_HEADER@),
                seq![uppercase_of(name), uppercase_of(name), name, name],
            ),
        ),
        ClientLang::Python => (file + ".py"@, fill(str_views(PYTHON_CLIENT@), seq![name, cap])),
        ClientLang::Js => (file + ".js"@, fill(str_views(JS_CLIENT@), seq![name, cap, cap])),
        ClientLang::Rust => (file + ".rs"@, fill(str_views(RUST_CLIENT@), seq![name, cap, cap])),
        ClientLang::Go => (
            file + ".go"@,
            fill(str_views(GO_CLIENT@), seq![name, name, cap, cap, cap, cap]),
        ),
        ClientLang::Java => (
            cap + "Channel.java"@,
            fill(str_views(JAVA_CLIENT@), seq![cap, name, cap]),
        ),
        ClientLang::CSharp => (
            cap + "Channel.cs"@,
            fill(str_views(CSHARP_CLIENT@), seq![cap, name, cap]),
        ),
        ClientLang::Ruby => (file + ".rb"@, fill(str_views(RUBY_CLIENT@), seq![name, cap])),
        ClientLang::Bash => (file + ".sh"@, fill(str_views(BASH_CLIENT@), seq![name, name, name])),
    }
}

fn with_suffix(stem: &[char], suffix: &str) -> (out: String)
    ensures
        out@ == stem@ + suffix@,
{
    let mut v = to_vec(stem);
    extend_str(&mut v, suffix);
    string_of(&v)
}

/// The client for `lang` of the service `name`, as (file name, content).
pub fn client_stub_file(lang: ClientLang, name: &str) -> (file: (String, String))
    requires
        needs_capital(lang) ==> capitalizable(name@),
    ensures
        (file.0@, file.1@) == client_stub(lang, name@),
{
    let n = chars_of(name);
    let mut prefix: Vec<char> = Vec::new();
    extend_str(&mut prefix, "metropipe_");
    extend_chars(&mut prefix, &n);
    let mut v: Vec<Vec<char>> = Vec::new();
    match lang {
        ClientLang::C => {
            let upper = chars_of(to_uppercase(name).as_str());
            v.push(to_vec(&upper));
            v.push(upper);
            v.push(to_vec(&n));
            v.push(to_vec(&n));
            assert(views(v@) =~= seq![uppercase_of(name@), uppercase_of(name@), name@, name@]);
            (with_suffix(&prefix, ".h"), fill_template(C_CLIENT_HEADER.as_slice(), &v))
        },
        ClientLang::Bash => {
            v.push(to_vec(&n));
            v.push(to_vec(&n));
            v.push(to_vec(&n));
            assert(views(v@) =~= seq![name@, name@, name@]);
            (with_suffix(&prefix, ".sh"), fill_template(BASH_CLIENT.as_slice(), &v))
        },
        ClientLang::Python => {
            let cap = capitalize(&n);
            v.push(to_vec(&n));
            v.push(cap);
            assert(views(v@) =~= seq![name@, capitalized(name@)]);
            (with_suffix(&prefix, ".py"), fill_template(PYTHON_CLIENT.as_slice(), &v))
        },
        ClientLang::Ruby => {
            let cap = capitalize(&n);
            v.push(to_vec(&n));
            v.push(cap);
            assert(views(v@) =~= seq![name@, capitalized(name@)]);
            (with_suffix(&prefix, ".rb"), fill_template(RUBY_CLIENT.as_slice(), &v))
        },
        ClientLang::Js => {
            let cap = capitalize(&n);
            v.push(to_vec(&n));
            v.push(to_vec(&cap));
            v.push(cap);
            assert(views(v@) =~= seq![name@, capitalized(name@), capitalized(name@)]);
            (with_suffix(&prefix, ".js"), fill_template(JS_CLIENT.as_slice(), &v))
        },
        ClientLang::Rust => {
            let cap = capitalize(&n);
            v.push(to_vec(&n));
            v.push(to_vec(&cap));
            v.push(cap);
            assert(views(v@) =~= seq![name@, capitalized(name@), capitalized(name@)]);
            (with_suffix(&prefix, ".rs"), fill_template(RUST_CLIENT.as_slice(), &v))
        },
        ClientLang::Go => {
            let cap = capitalize(&n);
            v.push(to_vec(&n));
            v.push(to_vec(&n));
            v.push(to_vec(&cap));
            v.push(to_vec(&cap));
            v.push(to_vec(&cap));
            v.push(cap);
            assert(views(v@) =~= seq![
                name@,
                name@,
                capitalized(name@),
                capitalized(name@),
                capitalized(name@),
                capitalized(name@),
            ]);
            (with_suffix(&prefix, ".go"), fill_template(GO_CLIENT.as_slice(), &v))
        },
        ClientLang::Java => {
            let cap = capitalize(&n);
            v.push(to_vec(&cap));
            v.push(to_vec(&n));
            v.push(to_vec(&cap));
            assert(views(v@) =~= seq![capitalized(name@), name@, capitalized(name@)]);
            (with_suffix(&cap, "Channel.java"), fill_template(JAVA_CLIENT.as_slice(), &v))
        },
        ClientLang::CSharp => {
            let cap = capitalize(&n);
            v.push(to_vec(&cap));
            v.push(to_vec(&n));
            v.push(to_vec(&cap));
            assert(views(v@) =~= seq![capitalized(name@), name@, capitalized(name@)]);
            (with_suffix(&cap, "Channel.cs"), fill_template(CSHARP_CLIENT.as_slice(), &v))
        },
    }
}

/// Generate the C header stub for a service.
pub fn generate_c_stub(name: &str) -> (file: (String, String))
    ensures
        (file.0@, file.1@) == client_stub(ClientLang::C, name@),
{
    client_stub_file(ClientLang::C, name)
}

/// Generate the Python stub for a service.
pub fn generate_python_stub(name: &str) -> (file: (String, String))
    requires
        capitalizable(name@),
    ensures
        (file.0@, file.1@) == client_stub(ClientLang::Python, name@),
{
    client_stub_file(ClientLang::Python, name)
}

/// Generate the JavaScript stub for a service.
pub fn generate_js_stub(name: &str) -> (file: (String, String))
    requires
        capitalizable(name@),
    ensures
        (file.0@, file.1@) == client_stub(ClientLang::Js, name@),
{
    client_stub_file(ClientLang::Js, name)
}

/// Generate the Rust stub for a service.
pub fn generate_rust_stub(name: &str) -> (file: (String, String))
    requires
        capitalizable(name@),
    ensures
        (file.0@, file.1@) == client_stub(ClientLang::Rust, name@),
{
    client_stub_file(ClientLang::Rust, name)
}

/// Generate the Go stub for a service.
pub fn generate_go_stub(name: &str) -> (file: (String, String))
    requires
        capitalizable(name@),
    ensures
        (file.0@, file.1@) == client_stub(ClientLang::Go, name@),
{
    client_stub_file(ClientLang::Go, name)
}

/// Generate the Java stub for a service.
pub fn generate_java_stub(name: &str) -> (file: (String, String))
    requires
        capitalizable(name@),
    ensures
        (file.0@, file.1@) == client_stub(ClientLang::Java, name@),
{
    client_stub_file(ClientLang::Java, name)
}

/// Generate the C# stub for a service.
pub fn generate_csharp_stub(name: &str) -> (file: (String, String))
    requires
        capitalizable(name@),
    ensures
        (file.0@, file.1@) == client_stub(ClientLang::CSharp, name@),
{
    client_stub_file(ClientLang::CSharp, name)
}

/// Generate the Ruby stub for a service.
pub fn generate_ruby_stub(name: &str) -> (file: (String, String))
    requires
        capitalizable(name@),
    ensures
        (file.0@, file.1@) == client_stub(ClientLang::Ruby, name@),
{
    client_stub_file(ClientLang::Ruby, name)
}

/// Generate the Bash stub for a service; it calls `metropipe proxy`.
pub fn generate_bash_stub(name: &str) -> (file: (String, String))
    ensures
        (file.0@, file.1@) == client_stub(ClientLang::Bash, name@),
{
    client_stub_file(ClientLang::Bash, name)
}

/// The clients of all languages, in the order they are written.
pub open spec fn client_order() -> Seq<ClientLang> {
    seq![
        ClientLang::C,
        ClientLang::Python,
        ClientLang::Js,
        ClientLang::Rust,
        ClientLang::Go,
        ClientLang::Java,
        ClientLang::CSharp,
        ClientLang::Ruby,
        ClientLang::Bash,
    ]
}

/// The clients of all languages for the service `name`, in the order of
/// `client_order`, as (file name, content) pairs.
pub fn all_client_stubs(name: &str) -> (files: Vec<(String, String)>)
    requires
        capitalizable(name@),
    ensures
        files@.len() == client_order().len(),
        forall|i: int|
            0 <= i < files@.len() ==> (#[trigger] files@[i].0@, files@[i].1@) == client_stub(
                client_order()[i],
                name@,
            ),
{
    let order = [
        ClientLang::C,
        ClientLang::Python,
        ClientLang::Js,
        ClientLang::Rust,
        ClientLang::Go,
        ClientLang::Java,
        ClientLang::CSharp,
        ClientLang::Ruby,
        ClientLang::Bash,
    ];
    assert(order@ =~= client_order());
    let mut files: Vec<(String, String)> = Vec::new();
    let mut i: usize = 0;
    while i < 9
        invariant
            i <= 9,
            order@ == client_order(),
            capitalizable(name@),
            files@.len() == i,
            forall|j: int|
                0 <= j < i ==> (#[trigger] files@[j].0@, files@[j].1@) == client_stub(
                    client_order()[j],
                    name@,
                ),
        decreases 9 - i,
    {
        files.push(client_stub_file(order[i], name));
        i = i + 1;
    }
    files
}

/// The service definition that `bind` writes into `service.dbv`.
pub open spec fn service_definition_text(name: Seq<char>) -> Seq<char> {
    fill(str_views(SERVICE_DEFINITION@), seq![name])
}

/// The service definition that `bind` writes into `service.dbv`.
pub fn service_definition(lib_name: &str) -> (text: String)
    ensures
        text@ == service_definition_text(lib_name@),
{
    let mut v: Vec<Vec<char>> = Vec::new();
    v.push(chars_of(lib_name));
    assert(views(v@) =~= seq![lib_name@]);
    fill_template(SERVICE_DEFINITION.as_slice(), &v)
}

/// The service name `bind` gives a library: the file stem of its path (the
/// file name without its extension), or the whole path where it has none.
pub open spec fn service_name(lib_path: Seq<char>) -> Seq<char> {
    match file_stem_of(lib_path) {
        Some(stem) => stem,
        None => lib_path,
    }
}

/// The service name `bind` gives the library at `lib_path`.
pub fn service_name_of(lib_path: &str) -> (name: String)
    ensures
        name@ == service_name(lib_path@),
{
    match path_file_stem(lib_path) {
        Some(stem) => stem,
        None => lib_path.to_owned(),
    }
}

/// One `INPUT` line per parameter, with its name and type.
pub open spec fn input_lines(params: Seq<(Seq<char>, Seq<char>)>) -> Seq<char>
    decreases params.len(),
{
    if params.len() == 0 {
        Seq::empty()
    } else {
        input_lines(params.drop_last()) + "  INPUT "@ + params.last().0 + ": "@ + params.last().1
            + ";\n"@
    }
}

/// One `OUTPUT result` line per return type that is not `void`.
pub open spec fn output_lines(return_types: Seq<(Seq<char>, Seq<char>)>) -> Seq<char>
    decreases return_types.len(),
{
    if return_types.len() == 0 {
        Seq::empty()
    } else if return_types.last().1 == "void"@ {
        output_lines(return_types.drop_last())
    } else {
        output_lines(return_types.drop_last()) + "  OUTPUT result: "@ + return_types.last().1
            + ";\n"@
    }
}

/// The service definition of one declared function: its parameters are the
/// inputs and its return value, unless `void`, the output.
pub open spec fn function_block(sig: SigView) -> Seq<char> {
    "SERVICE "@ + sig.name + " {\n"@ + input_lines(sig.params) + output_lines(sig.return_types)
        + "}\n"@
}

/// The blocks of all declared functions, one after another.
pub open spec fn function_blocks(sigs: Seq<SigView>) -> Seq<char>
    decreases sigs.len(),
{
    if sigs.len() == 0 {
        Seq::empty()
    } else {
        function_blocks(sigs.drop_last()) + function_block(sigs.last())
    }
}

/// What `bind` writes into `service.dbv` for the library at `lib_path` whose
/// header text is `header`: the library's service, then one service per
/// function that the header declares.
pub open spec fn bind_definition_text(lib_path: Seq<char>, header: Seq<char>) -> Seq<char> {
    service_definition_text(service_name(lib_path)) + function_blocks(header_prototypes(header))
}

fn input_lines_chars(params: &Vec<(String, String)>) -> (out: Vec<char>)
    ensures
        out@ == input_lines(pair_views(params@)),
{
    let ghost ps = pair_views(params@);
    let mut out: Vec<char> = Vec::new();
    let mut k: usize = 0;
    while k < params.len()
        invariant
            k <= params@.len(),
            ps == pair_views(params@),
            out@ == input_lines(ps.take(k as int)),
        decreases params@.len() - k,
    {
        let ghost taken = ps.take(k + 1);
        assert(taken.drop_last() =~= ps.take(k as int));
        extend_str(&mut out, "  INPUT ");
        extend_str(&mut out, params[k].0.as_str());
        extend_str(&mut out, ": ");
        extend_str(&mut out, params[k].1.as_str());
        extend_str(&mut out, ";\n");
        k = k + 1;
    }
    assert(ps.take(k as int) =~= ps);
    out
}

fn output_lines_chars(return_types: &Vec<(String, String)>) -> (out: Vec<char>)
    ensures
        out@ == output_lines(pair_views(return_types@)),
{
    let ghost rs = pair_views(return_types@);
    let mut out: Vec<char> = Vec::new();
    let void_word = chars_of("void");
    let mut k: usize = 0;
    while k < return_types.len()
        invariant
            k <= return_types@.len(),
            rs == pair_views(return_types@),
            void_word@ == "void"@,
            out@ == output_lines(rs.take(k as int)),
        decreases return_types@.len() - k,
    {
        let ghost taken = rs.take(k + 1);
        assert(taken.drop_last() =~= rs.take(k as int));
        let ty = chars_of(return_types[k].1.as_str());
        if !crate::text::same_chars(&ty, &void_word) {
            extend_str(&mut out, "  OUTPUT result: ");
            extend_chars(&mut out, &ty);
            extend_str(&mut out, ";\n");
        }
        k = k + 1;
    }
    assert(rs.take(k as int) =~= rs);
    out
}

/// The service definition that `bind` writes for the library at `lib_path`,
/// given the text of its header.
pub fn bind_definition(lib_path: &str, header: &str) -> (text: String)
    ensures
        text@ == bind_definition_text(lib_path@, header@),
{
    let name = service_name_of(lib_path);
    let mut out = chars_of(service_definition(name.as_str()).as_str());
    let sigs = header_functions(header);
    let ghost start = out@;
    let ghost all = sig_views(sigs@);
    let mut i: usize = 0;
    while i < sigs.len()
        invariant
            i <= sigs@.len(),
            all == sig_views(sigs@),
            out@ == start + function_blocks(all.take(i as int)),
        decreases sigs@.len() - i,
    {
        let ghost taken = all.take(i + 1);
        assert(taken.drop_last() =~= all.take(i as int));
        assert(taken.last() == sigs@[i as int]@);
        extend_str(&mut out, "SERVICE ");
        extend_str(&mut out, sigs[i].name.as_str());
        extend_str(&mut out, " {\n");
        extend_chars(&mut out, &input_lines_chars(&sigs[i].params));
        extend_chars(&mut out, &output_lines_chars(&sigs[i].return_types));
        extend_str(&mut out, "}\n");
        i = i + 1;
        assert(out@ =~= start + function_blocks(all.take(i as int)));
    }
    assert(all.take(i as int) =~= all);
    string_of(&out)
}

} // verus!
