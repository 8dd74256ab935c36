//! The `export` command: its options, the source language, and the files it writes.
use crate::cli::{arg_views, is_flag};
use crate::signature::{FunctionSig, SigView, pair_views};
use crate::stub::{
    generate_provider, generate_target_stub, stub_files, stub_files_for_lang, target_stub,
};
use crate::text::{chars_of, extend_str, is_text, starts_with, str_eq, string_of};
use crate::types::{ext_for_target, target_extension};
use vstd::prelude::*;

verus! {

/// Output mode for generated files.
#[derive(Debug, Clone, Copy, PartialEq, Eq, Structural)]
pub enum OutputMode {
    /// A directory per function: `<out>/<function>/stub.rs`.
    Namespace,
    /// All stubs in one directory: `<out>/stub.rs`.
    Flat,
    /// Every export appended to one file per language: `<out>/metropipe.rs`.
    Unify,
}

/// The options of `export`.
pub struct ExportOptions {
    pub func_name: String,
    pub source_path: Option<String>,
    pub targets: Vec<String>,
    pub out_dir: String,
    pub mode: OutputMode,
}

/// The options of `export`, as character sequences.
pub struct ExportView {
    pub func_name: Seq<char>,
    pub source_path: Option<Seq<char>>,
    pub targets: Seq<Seq<char>>,
    pub out_dir: Seq<char>,
    pub mode: OutputMode,
}

impl View for ExportOptions {
    type V = ExportView;

    open spec fn view(&self) -> ExportView {
        ExportView {
            func_name: self.func_name@,
            source_path: match self.source_path {
                Some(s) => Some(s@),
                None => None,
            },
            targets: arg_views(self.targets@),
            out_dir: self.out_dir@,
            mode: self.mode,
        }
    }
}

/// The targets when none are named: every language.
pub open spec fn all_targets() -> Seq<Seq<char>> {
    seq!["c"@, "python"@, "js"@, "rust"@, "go"@, "java"@, "csharp"@, "ruby"@, "bash"@]
}

/// Reading the flags of `export` from argument `i` on, with `o` read so far;
/// `collecting` holds while the words after `--target` are being read.
pub open spec fn export_flags_from(
    args: Seq<Seq<char>>,
    i: int,
    o: ExportView,
    collecting: bool,
) -> ExportView
    decreases args.len() - i,
{
    if i < 0 || i >= args.len() {
        o
    } else if collecting && !is_flag(args[i]) {
        export_flags_from(args, i + 1, ExportView { targets: o.targets.push(args[i]), ..o }, true)
    } else if args[i] == "--target"@ && i + 1 < args.len() {
        export_flags_from(args, i + 1, o, true)
    } else if args[i] == "--out"@ && i + 1 < args.len() {
        export_flags_from(args, i + 2, ExportView { out_dir: args[i + 1], ..o }, false)
    } else if args[i] == "--namespace"@ {
        export_flags_from(args, i + 1, ExportView { mode: OutputMode::Namespace, ..o }, false)
    } else if args[i] == "--flat"@ {
        export_flags_from(args, i + 1, ExportView { mode: OutputMode::Flat, ..o }, false)
    } else if args[i] == "--unify"@ {
        export_flags_from(args, i + 1, ExportView { mode: OutputMode::Unify, ..o }, false)
    } else {
        export_flags_from(args, i + 1, o, false)
    }
}

/// The options that the arguments of `export` (the function name first, then
/// the source file) give.
pub open spec fn export_options_of(args: Seq<Seq<char>>) -> ExportView {
    let flags = export_flags_from(
        args,
        2,
        ExportView {
            func_name: args[0],
            source_path: if args.len() >= 2 {
                Some(args[1])
            } else {
                None
            },
            targets: Seq::empty(),
            out_dir: "metropipe"@,
            mode: OutputMode::Namespace,
        },
        false,
    );
    if flags.targets.len() == 0 {
        ExportView { targets: all_targets(), ..flags }
    } else {
        flags
    }
}

/// Reading the flags from `i` on, where the last argument is a mode flag `f`
/// naming `m`, ends in mode `m`: no argument before it can consume it.
proof fn lemma_flags_end_with_mode(
    args: Seq<Seq<char>>,
    f: Seq<char>,
    m: OutputMode,
    i: int,
    o: ExportView,
    c: bool,
)
    requires
        (f == "--namespace"@ && m == OutputMode::Namespace) || (f == "--flat"@ && m
            == OutputMode::Flat) || (f == "--unify"@ && m == OutputMode::Unify),
        0 <= i <= args.len(),
        args.len() == 0 || args.last() != "--out"@,
    ensures
        export_flags_from(args.push(f), i, o, c).mode == m,
    decreases args.len() - i,
{
    let a2 = args.push(f);
    reveal_strlit("--");
    reveal_strlit("--namespace");
    reveal_strlit("--flat");
    reveal_strlit("--unify");
    reveal_strlit("--target");
    reveal_strlit("--out");
    if i == args.len() {
        assert(a2[i] == f);
        assert(f.subrange(0, 2) =~= "--"@);
        assert(is_flag(f));
        let after = if f == "--namespace"@ {
            ExportView { mode: OutputMode::Namespace, ..o }
        } else if f == "--flat"@ {
            ExportView { mode: OutputMode::Flat, ..o }
        } else {
            ExportView { mode: OutputMode::Unify, ..o }
        };
        assert(export_flags_from(a2, i + 1, after, false) == after);
        assert(export_flags_from(a2, i, o, c) == export_flags_from(a2, i + 1, after, false));
    } else {
        assert(a2[i] == args[i]);
        if c && !is_flag(a2[i]) {
            lemma_flags_end_with_mode(
                args,
                f,
                m,
                i + 1,
                ExportView { targets: o.targets.push(a2[i]), ..o },
                true,
            );
        } else if a2[i] == "--target"@ && i + 1 < a2.len() {
            lemma_flags_end_with_mode(args, f, m, i + 1, o, true);
        } else if a2[i] == "--out"@ && i + 1 < a2.len() {
            assert(i + 2 <= args.len());
            lemma_flags_end_with_mode(
                args,
                f,
                m,
                i + 2,
                ExportView { out_dir: a2[i + 1], ..o },
                false,
            );
        } else if a2[i] == "--namespace"@ {
            lemma_flags_end_with_mode(
                args,
                f,
                m,
                i + 1,
                ExportView { mode: OutputMode::Namespace, ..o },
                false,
            );
        } else if a2[i] == "--flat"@ {
            lemma_flags_end_with_mode(args, f, m, i + 1, ExportView { mode: OutputMode::Flat, ..o }, false);
        } else if a2[i] == "--unify"@ {
            lemma_flags_end_with_mode(args, f, m, i + 1, ExportView { mode: OutputMode::Unify, ..o }, false);
        } else {
            lemma_flags_end_with_mode(args, f, m, i + 1, o, false);
        }
    }
}

/// Reading the flags from `i` on, where no argument from `i` on is a mode
/// flag, leaves the mode as it was.
proof fn lemma_flags_keep_mode(args: Seq<Seq<char>>, i: int, o: ExportView, c: bool)
    requires
        forall|j: int|
            i <= j < args.len() ==> args[j] != "--namespace"@ && args[j] != "--flat"@ && args[j]
                != "--unify"@,
    ensures
        export_flags_from(args, i, o, c).mode == o.mode,
    decreases args.len() - i,
{
    if 0 <= i < args.len() {
        if c && !is_flag(args[i]) {
            lemma_flags_keep_mode(args, i + 1, ExportView { targets: o.targets.push(args[i]), ..o }, true);
        } else if args[i] == "--target"@ && i + 1 < args.len() {
            lemma_flags_keep_mode(args, i + 1, o, true);
        } else if args[i] == "--out"@ && i + 1 < args.len() {
            lemma_flags_keep_mode(args, i + 2, ExportView { out_dir: args[i + 1], ..o }, false);
        } else {
            lemma_flags_keep_mode(args, i + 1, o, false);
        }
    }
}

/// A mode flag given last decides the mode of `export`: with `--namespace`,
/// `--flat` or `--unify` appended to the arguments (after the function name
/// and the source, and not as the value of a trailing `--out`), the mode is
/// the one that flag names, whatever came before.
pub proof fn law_last_mode_flag_decides(args: Seq<Seq<char>>)
    requires
        args.len() >= 2,
        args.last() != "--out"@,
    ensures
        export_options_of(args.push("--namespace"@)).mode == OutputMode::Namespace,
        export_options_of(args.push("--flat"@)).mode == OutputMode::Flat,
        export_options_of(args.push("--unify"@)).mode == OutputMode::Unify,
{
    let start = |a: Seq<Seq<char>>|
        ExportView {
            func_name: a[0],
            source_path: Some(a[1]),
            targets: Seq::empty(),
            out_dir: "metropipe"@,
            mode: OutputMode::Namespace,
        };
    lemma_flags_end_with_mode(args, "--namespace"@, OutputMode::Namespace, 2, start(args.push("--namespace"@)), false);
    lemma_flags_end_with_mode(args, "--flat"@, OutputMode::Flat, 2, start(args.push("--flat"@)), false);
    lemma_flags_end_with_mode(args, "--unify"@, OutputMode::Unify, 2, start(args.push("--unify"@)), false);
}

/// Without a mode flag among the flags, `export` writes one directory per
/// function (Namespace).
pub proof fn law_default_mode_is_namespace(args: Seq<Seq<char>>)
    requires
        args.len() >= 1,
        forall|j: int|
            2 <= j < args.len() ==> args[j] != "--namespace"@ && args[j] != "--flat"@ && args[j]
                != "--unify"@,
    ensures
        export_options_of(args).mode == OutputMode::Namespace,
{
    lemma_flags_keep_mode(
        args,
        2,
        ExportView {
            func_name: args[0],
            source_path: if args.len() >= 2 {
                Some(args[1])
            } else {
                None
            },
            targets: Seq::empty(),
            out_dir: "metropipe"@,
            mode: OutputMode::Namespace,
        },
        false,
    );
}


fn copy_string(s: &String) -> (out: String)
    ensures
        out@ == s@,
{
    s.clone()
}

fn push_arg(v: &mut Vec<String>, s: String)
    ensures
        arg_views(final(v)@) == arg_views(old(v)@).push(s@),
{
    v.push(s);
    assert(arg_views(v@) =~= arg_views(old(v)@).push(s@));
}

/// Read the options of `export` from its arguments: the function name, then the
/// source file, then the flags.
pub fn parse_export_args(args: &[String]) -> (o: ExportOptions)
    requires
        args@.len() >= 1,
    ensures
        o@ == export_options_of(arg_views(args@)),
{
    let ghost a = arg_views(args@);
    assert(a[0] == args@[0]@);
    let source_path = if args.len() >= 2 {
        assert(a[1] == args@[1]@);
        Some(copy_string(&args[1]))
    } else {
        None
    };
    let mut targets: Vec<String> = Vec::new();
    assert(arg_views(targets@) =~= Seq::<Seq<char>>::empty());
    let mut o = ExportOptions {
        func_name: copy_string(&args[0]),
        source_path,
        targets,
        out_dir: "metropipe".to_owned(),
        mode: OutputMode::Namespace,
    };
    let dash = chars_of("--");
    let mut collecting = false;
    let mut i: usize = 2;
    if args.len() < 2 {
        i = args.len();
    }
    let ghost start = o@;
    assert(export_flags_from(a, i as int, start, false) == export_flags_from(a, 2, start, false));
    while i < args.len()
        invariant
            a == arg_views(args@),
            dash@ == "--"@,
            i <= args@.len(),
            export_flags_from(a, i as int, o@, collecting) == export_flags_from(a, 2, start, false),
        decreases args@.len() - i,
    {
        assert(a[i as int] == args@[i as int]@);
        let arg = args[i].as_str();
        let flag = starts_with(&chars_of(arg), &dash);
        if collecting && !flag {
            push_arg(&mut o.targets, copy_string(&args[i]));
            i = i + 1;
        } else if is_text(&chars_of(arg), "--target") && i + 1 < args.len() {
            collecting = true;
            i = i + 1;
        } else if is_text(&chars_of(arg), "--out") && i + 1 < args.len() {
            assert(a[i + 1] == args@[i + 1]@);
            o.out_dir = copy_string(&args[i + 1]);
            collecting = false;
            i = i + 2;
        } else if is_text(&chars_of(arg), "--namespace") {
            o.mode = OutputMode::Namespace;
            collecting = false;
            i = i + 1;
        } else if is_text(&chars_of(arg), "--flat") {
            o.mode = OutputMode::Flat;
            collecting = false;
            i = i + 1;
        } else if is_text(&chars_of(arg), "--unify") {
            o.mode = OutputMode::Unify;
            collecting = false;
            i = i + 1;
        } else {
            collecting = false;
            i = i + 1;
        }
    }
    if o.targets.len() == 0 {
        let mut all: Vec<String> = Vec::new();
        push_arg(&mut all, "c".to_owned());
        push_arg(&mut all, "python".to_owned());
        push_arg(&mut all, "js".to_owned());
        push_arg(&mut all, "rust".to_owned());
        push_arg(&mut all, "go".to_owned());
        push_arg(&mut all, "java".to_owned());
        push_arg(&mut all, "csharp".to_owned());
        push_arg(&mut all, "ruby".to_owned());
        push_arg(&mut all, "bash".to_owned());
        assert(arg_views(all@) =~= all_targets());
        o.targets = all;
    }
    o
}


/// What `Path::extension` gives for a path, as UTF-8 text.
pub uninterp spec fn extension_of(path: Seq<char>) -> Option<Seq<char>>;

/// Calls `Path::extension` and `OsStr::to_str`. Claimed: the result is a
/// function of the path's characters alone; which part of the path it is
/// (what follows the last dot of the file name) is left unstated.
#[verifier::external_body]
fn path_extension(path: &str) -> (r: Option<String>)
    ensures
        match r {
            Some(e) => extension_of(path@) == Some(e@),
            None => extension_of(path@) is None,
        },
{
    let ext = std::path::Path::new(path).extension()?;
    Some(ext.to_str()?.to_owned())
}

/// What `str::to_lowercase` gives for a string: its characters mapped to lower
/// case by the Unicode case tables.
pub uninterp spec fn lowercase_of(s: Seq<char>) -> Seq<char>;

/// Calls `str::to_lowercase`. Claimed: the result is a function of the
/// characters of `s` alone. What that function is (the Unicode lower-case
/// mapping) is left unstated.
#[verifier::external_body]
fn to_lowercase(s: &str) -> (r: String)
    ensures
        r@ == lowercase_of(s@),
{
    s.to_lowercase()
}

/// The source language that a lower-case file extension names.
pub open spec fn lang_for_extension(ext: Seq<char>) -> Seq<char> {
    if ext == "py"@ {
        "python"@
    } else if ext == "rs"@ {
        "rust"@
    } else if ext == "go"@ {
        "go"@
    } else if ext == "c"@ || ext == "h"@ {
        "c"@
    } else if ext == "js"@ || ext == "mjs"@ {
        "js"@
    } else if ext == "ts"@ {
        "ts"@
    } else if ext == "rb"@ {
        "ruby"@
    } else if ext == "java"@ {
        "java"@
    } else if ext == "cs"@ {
        "csharp"@
    } else {
        "unknown"@
    }
}

/// Each extension the documentation lists names its language: `py` Python,
/// `rs` Rust, `go` Go, `c` and `h` C, `js` and `mjs` JavaScript, `ts`
/// TypeScript, `rb` Ruby, `java` Java and `cs` C#.
pub proof fn law_documented_extensions(ext: Seq<char>)
    ensures
        ext == "py"@ ==> lang_for_extension(ext) == "python"@,
        ext == "rs"@ ==> lang_for_extension(ext) == "rust"@,
        ext == "go"@ ==> lang_for_extension(ext) == "go"@,
        ext == "c"@ ==> lang_for_extension(ext) == "c"@,
        ext == "h"@ ==> lang_for_extension(ext) == "c"@,
        ext == "js"@ ==> lang_for_extension(ext) == "js"@,
        ext == "mjs"@ ==> lang_for_extension(ext) == "js"@,
        ext == "ts"@ ==> lang_for_extension(ext) == "ts"@,
        ext == "rb"@ ==> lang_for_extension(ext) == "ruby"@,
        ext == "java"@ ==> lang_for_extension(ext) == "java"@,
        ext == "cs"@ ==> lang_for_extension(ext) == "csharp"@,
{
    reveal_strlit("py");
    reveal_strlit("rs");
    reveal_strlit("go");
    reveal_strlit("c");
    reveal_strlit("h");
    reveal_strlit("js");
    reveal_strlit("mjs");
    reveal_strlit("ts");
    reveal_strlit("rb");
    reveal_strlit("java");
    reveal_strlit("cs");
    reveal_strlit("python");
    reveal_strlit("rust");
    reveal_strlit("ruby");
    reveal_strlit("csharp");
    assert("py"@[0] != "rs"@[0]);
    assert("py"@[0] != "go"@[0]);
    assert("py"@[0] != "js"@[0]);
    assert("py"@[0] != "ts"@[0]);
    assert("py"@[0] != "rb"@[0]);
    assert("py"@[0] != "cs"@[0]);
    assert("rs"@[0] != "py"@[0]);
    assert("rs"@[0] != "go"@[0]);
    assert("rs"@[0] != "js"@[0]);
    assert("rs"@[0] != "ts"@[0]);
    assert("rs"@[1] != "rb"@[1]);
    assert("rs"@[0] != "cs"@[0]);
    assert("go"@[0] != "py"@[0]);
    assert("go"@[0] != "rs"@[0]);
    assert("go"@[0] != "js"@[0]);
    assert("go"@[0] != "ts"@[0]);
    assert("go"@[0] != "rb"@[0]);
    assert("go"@[0] != "cs"@[0]);
    assert("c"@[0] != "h"@[0]);
    assert("h"@[0] != "c"@[0]);
    assert("js"@[0] != "py"@[0]);
    assert("js"@[0] != "rs"@[0]);
    assert("js"@[0] != "go"@[0]);
    assert("js"@[0] != "ts"@[0]);
    assert("js"@[0] != "rb"@[0]);
    assert("js"@[0] != "cs"@[0]);
    assert("ts"@[0] != "py"@[0]);
    assert("ts"@[0] != "rs"@[0]);
    assert("ts"@[0] != "go"@[0]);
    assert("ts"@[0] != "js"@[0]);
    assert("ts"@[0] != "rb"@[0]);
    assert("ts"@[0] != "cs"@[0]);
    assert("rb"@[0] != "py"@[0]);
    assert("rb"@[1] != "rs"@[1]);
    assert("rb"@[0] != "go"@[0]);
    assert("rb"@[0] != "js"@[0]);
    assert("rb"@[0] != "ts"@[0]);
    assert("rb"@[0] != "cs"@[0]);
    assert("cs"@[0] != "py"@[0]);
    assert("cs"@[0] != "rs"@[0]);
    assert("cs"@[0] != "go"@[0]);
    assert("cs"@[0] != "js"@[0]);
    assert("cs"@[0] != "ts"@[0]);
    assert("cs"@[0] != "rb"@[0]);
}

/// The source language of a file: named by its extension in lower case.
pub open spec fn source_lang_of(path: Seq<char>) -> Seq<char> {
    lang_for_extension(
        lowercase_of(
            match extension_of(path) {
                Some(e) => e,
                None => Seq::empty(),
            },
        ),
    )
}

/// The source language that a lower-case file extension names.
pub fn language_for_extension(ext: &str) -> (lang: &'static str)
    ensures
        lang@ == lang_for_extension(ext@),
{
    let e = chars_of(ext);
    if is_text(&e, "py") {
        "python"
    } else if is_text(&e, "rs") {
        "rust"
    } else if is_text(&e, "go") {
        "go"
    } else if is_text(&e, "c") || is_text(&e, "h") {
        "c"
    } else if is_text(&e, "js") || is_text(&e, "mjs") {
        "js"
    } else if is_text(&e, "ts") {
        "ts"
    } else if is_text(&e, "rb") {
        "ruby"
    } else if is_text(&e, "java") {
        "java"
    } else if is_text(&e, "cs") {
        "csharp"
    } else {
        "unknown"
    }
}

/// The source language of a file, guessed from its extension.
pub fn source_language(path: &str) -> (lang: &'static str)
    ensures
        lang@ == source_lang_of(path@),
{
    let ext = match path_extension(path) {
        Some(e) => e,
        None => String::new(),
    };
    let lower = to_lowercase(ext.as_str());
    language_for_extension(lower.as_str())
}

/// One file that `export` writes: its path below the output directory, its
/// content, and whether the content is added to what the file already holds.
pub struct FileAction {
    pub path: Vec<String>,
    pub content: String,
    pub append: bool,
}

/// A `FileAction`, as character sequences.
pub struct ActionView {
    pub path: Seq<Seq<char>>,
    pub content: Seq<char>,
    pub append: bool,
}

impl View for FileAction {
    type V = ActionView;

    open spec fn view(&self) -> ActionView {
        ActionView { path: arg_views(self.path@), content: self.content@, append: self.append }
    }
}

/// The contents of a list of file actions.
pub open spec fn action_views(v: Seq<FileAction>) -> Seq<ActionView> {
    v.map_values(|a: FileAction| a@)
}

/// Writing `content` to the file at `path`, replacing what it held.
pub open spec fn write_at(path: Seq<Seq<char>>, content: Seq<char>) -> ActionView {
    ActionView { path, content, append: false }
}

/// The name a file gets in flat mode: a stub is named after the function
/// (`classify.rs`); the files of the direct-linking C target keep their names,
/// which already are.
pub open spec fn flat_file_name(lang: Seq<char>, func_name: Seq<char>, file_name: Seq<char>) -> Seq<
    char,
> {
    if lang == "c-linker"@ {
        file_name
    } else {
        func_name + "."@ + target_extension(lang)
    }
}

/// The files one target gets: in a directory of the function, directly in the
/// output directory, or appended to the one file of its language.
pub open spec fn target_actions(
    mode: OutputMode,
    lang: Seq<char>,
    sig: SigView,
    func_name: Seq<char>,
) -> Seq<ActionView> {
    let files = stub_files(lang, sig, func_name);
    match mode {
        OutputMode::Namespace => Seq::new(
            files.len(),
            |i: int| write_at(seq![func_name, files[i].0], files[i].1),
        ),
        OutputMode::Flat => Seq::new(
            files.len(),
            |i: int| write_at(seq![flat_file_name(lang, func_name, files[i].0)], files[i].1),
        ),
        OutputMode::Unify => seq![
            ActionView {
                path: seq!["metropipe."@ + target_extension(lang)],
                content: target_stub(lang, sig, func_name).1,
                append: true,
            },
        ],
    }
}

/// The files all targets get, target by target.
pub open spec fn targets_actions(
    mode: OutputMode,
    targets: Seq<Seq<char>>,
    sig: SigView,
    func_name: Seq<char>,
) -> Seq<ActionView>
    decreases targets.len(),
{
    if targets.len() == 0 {
        Seq::empty()
    } else {
        targets_actions(mode, targets.drop_last(), sig, func_name) + target_actions(
            mode,
            targets.last(),
            sig,
            func_name,
        )
    }
}

/// The extension of the provider: that of the source language's files for
/// JavaScript, TypeScript, Ruby, Rust, Go, C, Java and C# sources, `py` for
/// every other source language.
pub open spec fn provider_extension(source_lang: Seq<char>) -> Seq<char> {
    if source_lang == "js"@ {
        "js"@
    } else if source_lang == "ts"@ {
        "ts"@
    } else if source_lang == "ruby"@ {
        "rb"@
    } else if source_lang == "rust"@ {
        "rs"@
    } else if source_lang == "go"@ {
        "go"@
    } else if source_lang == "c"@ {
        "c"@
    } else if source_lang == "java"@ {
        "java"@
    } else if source_lang == "csharp"@ {
        "cs"@
    } else {
        "py"@
    }
}

fn provider_extension_of(source_lang: &str) -> (e: &'static str)
    ensures
        e@ == provider_extension(source_lang@),
{
    if str_eq(source_lang, "js") {
        "js"
    } else if str_eq(source_lang, "ts") {
        "ts"
    } else if str_eq(source_lang, "ruby") {
        "rb"
    } else if str_eq(source_lang, "rust") {
        "rs"
    } else if str_eq(source_lang, "go") {
        "go"
    } else if str_eq(source_lang, "c") {
        "c"
    } else if str_eq(source_lang, "java") {
        "java"
    } else if str_eq(source_lang, "csharp") {
        "cs"
    } else {
        "py"
    }
}

/// `base` followed by `ext`.
fn with_extension(base: &str, ext: &str) -> (s: String)
    ensures
        s@ == base@ + ext@,
{
    let mut out = chars_of(base);
    extend_str(&mut out, ext);
    string_of(&out)
}

/// Where the provider script goes, `ext` being its extension.
pub open spec fn provider_action(
    mode: OutputMode,
    func_name: Seq<char>,
    provider: Seq<char>,
    ext: Seq<char>,
) -> ActionView {
    match mode {
        OutputMode::Namespace => write_at(seq![func_name, "provider."@ + ext], provider),
        OutputMode::Flat => write_at(seq!["provider."@ + ext], provider),
        OutputMode::Unify => ActionView {
            path: seq!["metropipe_provider."@ + ext],
            content: provider,
            append: true,
        },
    }
}

/// Everything `export` writes: the stubs of each target, then the provider.
pub open spec fn export_actions(
    o: ExportView,
    sig: SigView,
    provider: Seq<char>,
) -> Seq<ActionView> {
    targets_actions(o.mode, o.targets, sig, o.func_name) + seq![
        provider_action(o.mode, o.func_name, provider, provider_extension(sig.source_lang)),
    ]
}

fn push_action(v: &mut Vec<FileAction>, a: FileAction)
    ensures
        action_views(final(v)@) == action_views(old(v)@).push(a@),
{
    v.push(a);
    assert(action_views(v@) =~= action_views(old(v)@).push(a@));
}

fn one_part(s: String) -> (v: Vec<String>)
    ensures
        arg_views(v@) == seq![s@],
{
    let mut v: Vec<String> = Vec::new();
    v.push(s);
    assert(arg_views(v@) =~= seq![s@]);
    v
}

fn two_parts(a: String, b: String) -> (v: Vec<String>)
    ensures
        arg_views(v@) == seq![a@, b@],
{
    let mut v: Vec<String> = Vec::new();
    v.push(a);
    v.push(b);
    assert(arg_views(v@) =~= seq![a@, b@]);
    v
}

fn target_actions_of(
    mode: OutputMode,
    lang: &str,
    sig: &FunctionSig,
    func_name: &String,
    out: &mut Vec<FileAction>,
)
    ensures
        action_views(final(out)@) == action_views(old(out)@) + target_actions(
            mode,
            lang@,
            sig@,
            func_name@,
        ),
{
    let ghost before = action_views(out@);
    match mode {
        OutputMode::Unify => {
            let content = match generate_target_stub(lang, sig, func_name.as_str()) {
                Ok(file) => file.1,
                Err(e) => e,
            };
            let mut name: Vec<char> = Vec::new();
            extend_str(&mut name, "metropipe.");
            extend_str(&mut name, ext_for_target(lang));
            let path = one_part(string_of(&name));
            push_action(out, FileAction { path, content, append: true });
            assert(action_views(out@) =~= before + target_actions(mode, lang@, sig@, func_name@));
        },
        _ => {
            let files = stub_files_for_lang(lang, sig, func_name.as_str());
            let ghost expected = target_actions(mode, lang@, sig@, func_name@);
            let ghost fv = pair_views(files@);
            let linker = str_eq(lang, "c-linker");
            let mut flat_name: Vec<char> = chars_of(func_name.as_str());
            extend_str(&mut flat_name, ".");
            extend_str(&mut flat_name, ext_for_target(lang));
            let mut k: usize = 0;
            while k < files.len()
                invariant
                    !(mode is Unify),
                    fv == pair_views(files@),
                    fv == stub_files(lang@, sig@, func_name@),
                    expected == target_actions(mode, lang@, sig@, func_name@),
                    expected.len() == files@.len(),
                    linker == (lang@ == "c-linker"@),
                    flat_name@ == func_name@ + "."@ + target_extension(lang@),
                    k <= files@.len(),
                    action_views(out@) == before + expected.take(k as int),
                decreases files@.len() - k,
            {
                let path = match mode {
                    OutputMode::Namespace => two_parts(
                        copy_string(func_name),
                        copy_string(&files[k].0),
                    ),
                    _ => if linker {
                        one_part(copy_string(&files[k].0))
                    } else {
                        one_part(string_of(&flat_name))
                    },
                };
                let content = copy_string(&files[k].1);
                let a = FileAction { path, content, append: false };
                assert(a@ == expected[k as int]);
                push_action(out, a);
                assert(expected.take(k + 1) =~= expected.take(k as int).push(expected[k as int]));
                k = k + 1;
            }
            assert(expected.take(k as int) =~= expected);
        },
    }
}

/// Everything `export` writes for the signature `sig`, read from the source
/// file of the options (the provider script names its module after it).
pub fn export_plan(o: &ExportOptions, sig: &FunctionSig) -> (actions: Vec<FileAction>)
    ensures
        action_views(actions@) == export_actions(
            o@,
            sig@,
            crate::stub::provider_script(
                sig@,
                crate::stub::provider_module(
                    match o@.source_path {
                        Some(p) => p,
                        None => Seq::empty(),
                    },
                ),
            ),
        ),
{
    let mut out: Vec<FileAction> = Vec::new();
    let mut k: usize = 0;
    let ghost targets = o@.targets;
    assert(targets.take(0) =~= Seq::<Seq<char>>::empty());
    while k < o.targets.len()
        invariant
            targets == o@.targets,
            k <= o.targets@.len(),
            action_views(out@) == targets_actions(
                o.mode,
                targets.take(k as int),
                sig@,
                o@.func_name,
            ),
        decreases o.targets@.len() - k,
    {
        assert(targets[k as int] == o.targets@[k as int]@);
        target_actions_of(o.mode, o.targets[k].as_str(), sig, &o.func_name, &mut out);
        assert(targets.take(k + 1).drop_last() =~= targets.take(k as int));
        k = k + 1;
    }
    assert(targets.take(k as int) =~= targets);
    let source = match &o.source_path {
        Some(p) => p.as_str(),
        None => "",
    };
    let provider = generate_provider(sig, source);
    let ext = provider_extension_of(sig.source_lang.as_str());
    let action = match o.mode {
        OutputMode::Namespace => FileAction {
            path: two_parts(copy_string(&o.func_name), with_extension("provider.", ext)),
            content: provider,
            append: false,
        },
        OutputMode::Flat => FileAction {
            path: one_part(with_extension("provider.", ext)),
            content: provider,
            append: false,
        },
        OutputMode::Unify => FileAction {
            path: one_part(with_extension("metropipe_provider.", ext)),
            content: provider,
            append: true,
        },
    };
    proof {
        if o@.source_path is None {
            reveal_strlit("");
            assert(""@ =~= Seq::<char>::empty());
        }
    }
    push_action(&mut out, action);
    out
}

/// What a unified file holds after an export is added: what it held, a newline,
/// and the new content.
pub open spec fn merged(existing: Seq<char>, content: Seq<char>) -> Seq<char> {
    existing + "\n"@ + content
}

/// Add `content` to what a unified file already holds.
pub fn merge_into(existing: &str, content: &str) -> (text: String)
    ensures
        text@ == merged(existing@, content@),
{
    let mut out: Vec<char> = Vec::new();
    extend_str(&mut out, existing);
    extend_str(&mut out, "\n");
    extend_str(&mut out, content);
    string_of(&out)
}

} // verus!
