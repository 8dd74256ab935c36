//! Reading a function's signature out of source text.
//!
//! Each parser looks, line by line, for the first line that declares the
//! function, and reads parameter names, parameter types and return types from
//! that one line. Declarations that span several lines are not read.
use crate::text::{
    chars_of, concat, contains, copy_range, find, find_char, find_chars, index_of, join, join_range,
    lemma_find, lemma_index_of, lines, lines_of, occurs_at, same_chars, split, split_chars,
    split_whitespace, starts_with, str_eq, string_of, strip_trailing, trim, trim_chars,
    to_vec, trim_end_matches, views, words,
};
use vstd::prelude::*;

verus! {

/// A parsed function signature extracted from a source file.
#[derive(Debug, Clone)]
pub struct FunctionSig {
    pub name: String,
    pub params: Vec<(String, String)>,
    pub return_types: Vec<(String, String)>,
    pub source_lang: String,
}

/// The contents of a `FunctionSig`, as character sequences.
pub struct SigView {
    pub name: Seq<char>,
    pub params: Seq<(Seq<char>, Seq<char>)>,
    pub return_types: Seq<(Seq<char>, Seq<char>)>,
    pub source_lang: Seq<char>,
}

/// The character sequences of a list of (name, type) pairs.
pub open spec fn pair_views(v: Seq<(String, String)>) -> Seq<(Seq<char>, Seq<char>)> {
    v.map_values(|p: (String, String)| (p.0@, p.1@))
}

impl View for FunctionSig {
    type V = SigView;

    open spec fn view(&self) -> SigView {
        SigView {
            name: self.name@,
            params: pair_views(self.params@),
            return_types: pair_views(self.return_types@),
            source_lang: self.source_lang@,
        }
    }
}

/// The first trimmed line, from line `i` on, that begins with `pat`.
pub open spec fn line_starting_from(lines: Seq<Seq<char>>, pat: Seq<char>, i: int) -> Option<
    Seq<char>,
>
    decreases lines.len() - i,
{
    if i < 0 || i >= lines.len() {
        None
    } else if occurs_at(trim(lines[i]), pat, 0) {
        Some(trim(lines[i]))
    } else {
        line_starting_from(lines, pat, i + 1)
    }
}

/// The first trimmed line of `source` that begins with `pat`.
pub open spec fn line_starting_with(source: Seq<char>, pat: Seq<char>) -> Option<Seq<char>> {
    line_starting_from(lines(source), pat, 0)
}

/// The declaration prefix `keyword`, the function's name and an opening parenthesis.
pub open spec fn declaration_prefix(keyword: Seq<char>, name: Seq<char>) -> Seq<char> {
    keyword + name + seq!['(']
}

/// Where the parameter list of a declaration line ends: at its first `)`, or at its end.
pub open spec fn paren_end(t: Seq<char>) -> int {
    match index_of(t, ')') {
        Some(k) => k,
        None => t.len() as int,
    }
}

/// The declaration line that a parser with `keyword` reads can be read without a panic:
/// its first `)` closes the parameter list, after the prefix.
pub open spec fn declaration_readable(
    keyword: Seq<char>,
    name: Seq<char>,
    source: Seq<char>,
) -> bool {
    match line_starting_with(source, declaration_prefix(keyword, name)) {
        None => true,
        Some(t) => match index_of(t, ')') {
            Some(k) => k >= declaration_prefix(keyword, name).len(),
            None => false,
        },
    }
}

/// A signature's contents from its parts.
pub open spec fn sig_view(
    name: Seq<char>,
    params: Seq<(Seq<char>, Seq<char>)>,
    return_types: Seq<(Seq<char>, Seq<char>)>,
    source_lang: Seq<char>,
) -> SigView {
    SigView { name, params, return_types, source_lang }
}

// ---------------------------------------------------------------- shared exec helpers

fn pair_of(a: &[char], b: &[char]) -> (p: (String, String))
    ensures
        p.0@ == a@,
        p.1@ == b@,
{
    (string_of(a), string_of(b))
}

fn pair_of_str(a: &str, b: &str) -> (p: (String, String))
    ensures
        p.0@ == a@,
        p.1@ == b@,
{
    (a.to_owned(), b.to_owned())
}

fn push_pair(out: &mut Vec<(String, String)>, p: (String, String))
    ensures
        pair_views(final(out)@) == pair_views(old(out)@).push((p.0@, p.1@)),
{
    out.push(p);
    assert(pair_views(out@) =~= pair_views(old(out)@).push((p.0@, p.1@)));
}

fn single_pair(a: &str, b: &str) -> (out: Vec<(String, String)>)
    ensures
        pair_views(out@) == seq![(a@, b@)],
{
    let mut out: Vec<(String, String)> = Vec::new();
    push_pair(&mut out, pair_of_str(a, b));
    assert(pair_views(out@) =~= seq![(a@, b@)]);
    out
}

fn single_pair_chars(a: &str, b: &[char]) -> (out: Vec<(String, String)>)
    ensures
        pair_views(out@) == seq![(a@, b@)],
{
    let mut out: Vec<(String, String)> = Vec::new();
    push_pair(&mut out, (a.to_owned(), string_of(b)));
    assert(pair_views(out@) =~= seq![(a@, b@)]);
    out
}

fn no_pairs() -> (out: Vec<(String, String)>)
    ensures
        pair_views(out@) == Seq::<(Seq<char>, Seq<char>)>::empty(),
{
    let out: Vec<(String, String)> = Vec::new();
    assert(pair_views(out@) =~= Seq::<(Seq<char>, Seq<char>)>::empty());
    out
}

/// `keyword`, then `name`, then `(`.
fn prefix_chars(keyword: &str, name: &[char]) -> (out: Vec<char>)
    ensures
        out@ == declaration_prefix(keyword@, name@),
{
    let kw = chars_of(keyword);
    let mut out = concat(&kw, name);
    out.push('(');
    out
}

/// The first trimmed line that begins with `pat`.
fn find_line_starting(lines: &Vec<Vec<char>>, pat: &[char]) -> (r: Option<Vec<char>>)
    ensures
        r matches Some(t) ==> line_starting_from(views(lines@), pat@, 0) == Some(t@),
        r matches Some(t) ==> occurs_at(t@, pat@, 0),
        r is None ==> line_starting_from(views(lines@), pat@, 0) is None,
{
    let mut i: usize = 0;
    while i < lines.len()
        invariant
            i <= lines@.len(),
            line_starting_from(views(lines@), pat@, i as int) == line_starting_from(
                views(lines@),
                pat@,
                0,
            ),
        decreases lines@.len() - i,
    {
        let t = trim_chars(&lines[i]);
        assert(views(lines@)[i as int] == lines@[i as int]@);
        if starts_with(&t, pat) {
            return Some(t);
        }
        i = i + 1;
    }
    None
}

/// The position where the parameter list of `t` ends.
fn paren_end_of(t: &[char]) -> (k: usize)
    ensures
        k == paren_end(t@),
        k <= t@.len(),
{
    proof {
        lemma_index_of(t@, ')');
    }
    match find_char(t, ')') {
        Some(k) => k,
        None => t.len(),
    }
}

// ---------------------------------------------------------------- Python

/// The parameters that the Python parser reads from the comma-separated pieces.
pub open spec fn python_params(pieces: Seq<Seq<char>>) -> Seq<(Seq<char>, Seq<char>)>
    decreases pieces.len(),
{
    if pieces.len() == 0 {
        Seq::empty()
    } else {
        let before = python_params(pieces.drop_last());
        let p = trim(pieces.last());
        if p.len() == 0 || p == "self"@ {
            before
        } else {
            match index_of(p, ':') {
                Some(i) => before.push((trim(p.take(i)), trim(p.skip(i + 1)))),
                None => before.push((p, "Data"@)),
            }
        }
    }
}

/// The Python parser skips `self` and empty pieces, reads `name: type` from a
/// piece with a `:` (the trimmed text around its first `:`), and reads any
/// other piece as an untyped parameter of type `Data`.
pub proof fn law_python_params_per_piece(pieces: Seq<Seq<char>>, p: Seq<char>)
    ensures
        trim(p).len() == 0 || trim(p) == "self"@ ==> python_params(pieces.push(p))
            == python_params(pieces),
        trim(p).len() > 0 && trim(p) != "self"@ ==> (match index_of(trim(p), ':') {
            Some(i) => python_params(pieces.push(p)) == python_params(pieces).push(
                (trim(trim(p).take(i)), trim(trim(p).skip(i + 1))),
            ),
            None => python_params(pieces.push(p)) == python_params(pieces).push((trim(p), "Data"@)),
        }),
{
    assert(pieces.push(p).drop_last() =~= pieces);
    assert(pieces.push(p).last() == p);
}

/// The return types that the Python parser reads from what follows the parameter list.
pub open spec fn python_returns(rest: Seq<char>) -> Seq<(Seq<char>, Seq<char>)> {
    match find(rest, "->"@) {
        None => seq![("return"@, "Data"@)],
        Some(a) => {
            let r = strip_trailing(trim(rest.skip(a + 2)), ':');
            if find(r, "Tuple"@) is Some || index_of(r, ',') is Some {
                seq![("result"@, trim(r))]
            } else {
                seq![("return"@, trim(r))]
            }
        },
    }
}

/// What `parse_python_function` reads for `name` from `source`.
pub open spec fn python_signature(name: Seq<char>, source: Seq<char>) -> SigView {
    let pattern = declaration_prefix("def "@, name);
    match line_starting_with(source, pattern) {
        None => sig_view(name, Seq::empty(), seq![("return"@, "Data"@)], "python"@),
        Some(t) => sig_view(
            name,
            python_params(split(t.subrange(pattern.len() as int, paren_end(t)), ',')),
            python_returns(t.skip(paren_end(t) + 1)),
            "python"@,
        ),
    }
}

fn python_params_of(pieces: &Vec<Vec<char>>) -> (out: Vec<(String, String)>)
    ensures
        pair_views(out@) == python_params(views(pieces@)),
{
    let mut out = no_pairs();
    let self_word = chars_of("self");
    let mut k: usize = 0;
    while k < pieces.len()
        invariant
            k <= pieces@.len(),
            self_word@ == "self"@,
            pair_views(out@) == python_params(views(pieces@).take(k as int)),
        decreases pieces@.len() - k,
    {
        let ghost taken = views(pieces@).take(k + 1);
        assert(taken.drop_last() =~= views(pieces@).take(k as int));
        assert(taken.last() == pieces@[k as int]@);
        let p = trim_chars(&pieces[k]);
        if p.len() == 0 || same_chars(&p, &self_word) {
        } else {
            proof {
                lemma_index_of(p@, ':');
            }
            match find_char(&p, ':') {
                Some(i) => {
                    let n = trim_chars(&copy_range(&p, 0, i));
                    let t = trim_chars(&copy_range(&p, i + 1, p.len()));
                    assert(p@.take(i as int) =~= p@.subrange(0, i as int));
                    assert(p@.skip(i + 1) =~= p@.subrange(i + 1, p@.len() as int));
                    push_pair(&mut out, pair_of(&n, &t));
                },
                None => {
                    push_pair(&mut out, (string_of(&p), "Data".to_owned()));
                },
            }
        }
        k = k + 1;
    }
    assert(views(pieces@).take(k as int) =~= views(pieces@));
    out
}

fn python_returns_of(rest: &[char]) -> (out: Vec<(String, String)>)
    ensures
        pair_views(out@) == python_returns(rest@),
{
    let arrow = chars_of("->");
    match find_chars(rest, &arrow) {
        None => single_pair("return", "Data"),
        Some(a) => {
            proof {
                lemma_find(rest@, arrow@);
                reveal_strlit("->");
            }
            let n = rest.len();
            let after = copy_range(rest, a + 2, n);
            assert(after@ =~= rest@.skip(a + 2));
            let r = trim_end_matches(&trim_chars(&after), ':');
            let tuple = chars_of("Tuple");
            let result = trim_chars(&r);
            if contains(&r, &tuple) || find_char(&r, ',').is_some() {
                single_pair_chars("result", &result)
            } else {
                single_pair_chars("return", &result)
            }
        },
    }
}

/// Read a Python function's signature: the first line that begins with
/// `def <name>(` gives the parameters and the annotated return type.
pub fn parse_python_function(func_name: &str, source: &str) -> (sig: FunctionSig)
    requires
        declaration_readable("def "@, func_name@, source@),
    ensures
        sig@ == python_signature(func_name@, source@),
{
    let name = chars_of(func_name);
    let src = chars_of(source);
    let pattern = prefix_chars("def ", &name);
    let all_lines = lines_of(&src);
    match find_line_starting(&all_lines, &pattern) {
        None => FunctionSig {
            name: func_name.to_owned(),
            params: no_pairs(),
            return_types: single_pair("return", "Data"),
            source_lang: "python".to_owned(),
        },
        Some(t) => {
            proof {
                lemma_index_of(t@, ')');
            }
            let pe = paren_end_of(&t);
            let tl = t.len();
            assert(pe < tl);
            let inside = copy_range(&t, pattern.len(), pe);
            let rest = copy_range(&t, pe + 1, tl);
            assert(rest@ =~= t@.skip(pe + 1));
            let pieces = split_chars(&inside, ',');
            FunctionSig {
                name: func_name.to_owned(),
                params: python_params_of(&pieces),
                return_types: python_returns_of(&rest),
                source_lang: "python".to_owned(),
            }
        },
    }
}


// ---------------------------------------------------------------- Rust

/// The parameters that the Rust parser reads from the comma-separated pieces.
pub open spec fn rust_params(pieces: Seq<Seq<char>>) -> Seq<(Seq<char>, Seq<char>)>
    decreases pieces.len(),
{
    if pieces.len() == 0 {
        Seq::empty()
    } else {
        let before = rust_params(pieces.drop_last());
        let p = trim(pieces.last());
        if p.len() == 0 {
            before
        } else {
            match index_of(p, ':') {
                Some(i) => before.push((trim(p.take(i)), strip_trailing(trim(p.skip(i + 1)), ','))),
                None => before,
            }
        }
    }
}

/// The Rust parser reads a parameter only from a piece that holds a `:`: a
/// piece without one (a receiver such as `&self`, or nothing at all) adds no
/// parameter, and a piece with one adds exactly one, named by the trimmed text
/// before its first `:` and typed by the trimmed text after it (less a
/// trailing `,`). So there are never more parameters than pieces.
pub proof fn law_rust_params_come_from_typed_pieces(pieces: Seq<Seq<char>>, p: Seq<char>)
    ensures
        index_of(trim(p), ':') is None ==> rust_params(pieces.push(p)) == rust_params(pieces),
        index_of(trim(p), ':') matches Some(i) ==> rust_params(pieces.push(p)) == rust_params(
            pieces,
        ).push((trim(trim(p).take(i)), strip_trailing(trim(trim(p).skip(i + 1)), ','))),
        rust_params(pieces).len() <= pieces.len(),
    decreases pieces.len(),
{
    assert(pieces.push(p).drop_last() =~= pieces);
    assert(pieces.push(p).last() == p);
    if pieces.len() > 0 {
        law_rust_params_come_from_typed_pieces(pieces.drop_last(), pieces.last());
        assert(pieces.drop_last().push(pieces.last()) =~= pieces);
    }
    if trim(p).len() == 0 {
        assert(index_of(trim(p), ':') is None);
    }
}

/// The return types that the Rust parser reads from what follows the parameter list.
pub open spec fn rust_returns(rest: Seq<char>) -> Seq<(Seq<char>, Seq<char>)> {
    match find(rest, "->"@) {
        None => seq![("result"@, "Data"@)],
        Some(a) => seq![("result"@, trim(strip_trailing(trim(rest.skip(a + 2)), '{')))],
    }
}

/// What `parse_rust_function` reads for `name` from `source`.
pub open spec fn rust_signature(name: Seq<char>, source: Seq<char>) -> SigView {
    let pattern = declaration_prefix("fn "@, name);
    match line_starting_with(source, pattern) {
        None => sig_view(name, Seq::empty(), seq![("result"@, "Data"@)], "rust"@),
        Some(t) => sig_view(
            name,
            rust_params(split(t.subrange(pattern.len() as int, paren_end(t)), ',')),
            rust_returns(t.skip(paren_end(t) + 1)),
            "rust"@,
        ),
    }
}

fn rust_params_of(pieces: &Vec<Vec<char>>) -> (out: Vec<(String, String)>)
    ensures
        pair_views(out@) == rust_params(views(pieces@)),
{
    let mut out = no_pairs();
    let mut k: usize = 0;
    while k < pieces.len()
        invariant
            k <= pieces@.len(),
            pair_views(out@) == rust_params(views(pieces@).take(k as int)),
        decreases pieces@.len() - k,
    {
        let ghost taken = views(pieces@).take(k + 1);
        assert(taken.drop_last() =~= views(pieces@).take(k as int));
        assert(taken.last() == pieces@[k as int]@);
        let p = trim_chars(&pieces[k]);
        if p.len() > 0 {
            proof {
                lemma_index_of(p@, ':');
            }
            match find_char(&p, ':') {
                Some(i) => {
                    let n = trim_chars(&copy_range(&p, 0, i));
                    let t = trim_end_matches(&trim_chars(&copy_range(&p, i + 1, p.len())), ',');
                    assert(p@.take(i as int) =~= p@.subrange(0, i as int));
                    assert(p@.skip(i + 1) =~= p@.subrange(i + 1, p@.len() as int));
                    push_pair(&mut out, pair_of(&n, &t));
                },
                None => {},
            }
        }
        k = k + 1;
    }
    assert(views(pieces@).take(k as int) =~= views(pieces@));
    out
}

fn rust_returns_of(rest: &[char]) -> (out: Vec<(String, String)>)
    ensures
        pair_views(out@) == rust_returns(rest@),
{
    let arrow = chars_of("->");
    match find_chars(rest, &arrow) {
        None => single_pair("result", "Data"),
        Some(a) => {
            proof {
                lemma_find(rest@, arrow@);
                reveal_strlit("->");
            }
            let n = rest.len();
            let after = copy_range(rest, a + 2, n);
            assert(after@ =~= rest@.skip(a + 2));
            let r = trim_chars(&trim_end_matches(&trim_chars(&after), '{'));
            single_pair_chars("result", &r)
        },
    }
}

/// Read a Rust function's signature: the first line that begins with
/// `fn <name>(` gives the typed parameters and the return type.
pub fn parse_rust_function(func_name: &str, source: &str) -> (sig: FunctionSig)
    requires
        declaration_readable("fn "@, func_name@, source@),
    ensures
        sig@ == rust_signature(func_name@, source@),
{
    let name = chars_of(func_name);
    let src = chars_of(source);
    let pattern = prefix_chars("fn ", &name);
    let all_lines = lines_of(&src);
    match find_line_starting(&all_lines, &pattern) {
        None => FunctionSig {
            name: func_name.to_owned(),
            params: no_pairs(),
            return_types: single_pair("result", "Data"),
            source_lang: "rust".to_owned(),
        },
        Some(t) => {
            proof {
                lemma_index_of(t@, ')');
            }
            let pe = paren_end_of(&t);
            let tl = t.len();
            assert(pe < tl);
            let inside = copy_range(&t, pattern.len(), pe);
            let rest = copy_range(&t, pe + 1, tl);
            assert(rest@ =~= t@.skip(pe + 1));
            let pieces = split_chars(&inside, ',');
            FunctionSig {
                name: func_name.to_owned(),
                params: rust_params_of(&pieces),
                return_types: rust_returns_of(&rest),
                source_lang: "rust".to_owned(),
            }
        },
    }
}

// ---------------------------------------------------------------- Go

/// The parameters that the Go parser reads from the comma-separated pieces:
/// a name and the words after it, or the whole piece with the type `Data`.
pub open spec fn go_params(pieces: Seq<Seq<char>>) -> Seq<(Seq<char>, Seq<char>)>
    decreases pieces.len(),
{
    if pieces.len() == 0 {
        Seq::empty()
    } else {
        let before = go_params(pieces.drop_last());
        let p = trim(pieces.last());
        if p.len() == 0 {
            before
        } else {
            let parts = words(p);
            if parts.len() >= 2 {
                before.push((parts[0], join(parts.skip(1), " "@)))
            } else {
                before.push((p, "Data"@))
            }
        }
    }
}

/// The return types of a Go signature where none are read.
pub open spec fn go_default_returns() -> Seq<(Seq<char>, Seq<char>)> {
    seq![("result"@, "Data"@)]
}

/// One result per piece that is not empty once trimmed, typed by that piece.
pub open spec fn go_result_types(pieces: Seq<Seq<char>>) -> Seq<(Seq<char>, Seq<char>)>
    decreases pieces.len(),
{
    if pieces.len() == 0 {
        Seq::empty()
    } else if trim(pieces.last()).len() > 0 {
        go_result_types(pieces.drop_last()).push(("result"@, trim(pieces.last())))
    } else {
        go_result_types(pieces.drop_last())
    }
}

/// The return types that the Go parser reads from what follows the parameter
/// list, as in `func Name(params) type`: a parenthesized list gives one result
/// per type in it, else the text before the body's `{` is the one result type.
pub open spec fn go_returns(rest: Seq<char>) -> Seq<(Seq<char>, Seq<char>)> {
    let r = trim(rest);
    if r.len() > 0 && r[0] == '(' {
        let types = go_result_types(split(r.subrange(1, paren_end(r)), ','));
        if types.len() == 0 {
            go_default_returns()
        } else {
            types
        }
    } else {
        let t = trim(
            match index_of(r, '{') {
                Some(k) => r.take(k),
                None => r,
            },
        );
        if t.len() > 0 {
            seq![("result"@, t)]
        } else {
            go_default_returns()
        }
    }
}

/// What `parse_go_function` reads for `name` from `source`.
pub open spec fn go_signature(name: Seq<char>, source: Seq<char>) -> SigView {
    let pattern = declaration_prefix("func "@, name);
    match line_starting_with(source, pattern) {
        None => sig_view(name, Seq::empty(), go_default_returns(), "go"@),
        Some(t) => sig_view(
            name,
            go_params(split(t.subrange(pattern.len() as int, paren_end(t)), ',')),
            go_returns(t.skip(paren_end(t) + 1)),
            "go"@,
        ),
    }
}

fn go_params_of(pieces: &Vec<Vec<char>>) -> (out: Vec<(String, String)>)
    ensures
        pair_views(out@) == go_params(views(pieces@)),
{
    let mut out = no_pairs();
    let space = chars_of(" ");
    let mut k: usize = 0;
    while k < pieces.len()
        invariant
            k <= pieces@.len(),
            space@ == " "@,
            pair_views(out@) == go_params(views(pieces@).take(k as int)),
        decreases pieces@.len() - k,
    {
        let ghost taken = views(pieces@).take(k + 1);
        assert(taken.drop_last() =~= views(pieces@).take(k as int));
        assert(taken.last() == pieces@[k as int]@);
        let p = trim_chars(&pieces[k]);
        if p.len() > 0 {
            let parts = split_whitespace(&p);
            if parts.len() >= 2 {
                let ty = join_range(&parts, 1, parts.len(), &space);
                assert(views(parts@.subrange(1, parts@.len() as int)) =~= views(parts@).skip(1));
                assert(views(parts@)[0] == parts@[0]@);
                push_pair(&mut out, pair_of(&parts[0], &ty));
            } else {
                push_pair(&mut out, (string_of(&p), "Data".to_owned()));
            }
        }
        k = k + 1;
    }
    assert(views(pieces@).take(k as int) =~= views(pieces@));
    out
}

fn go_result_types_of(pieces: &Vec<Vec<char>>) -> (out: Vec<(String, String)>)
    ensures
        pair_views(out@) == go_result_types(views(pieces@)),
{
    let mut out = no_pairs();
    let mut k: usize = 0;
    while k < pieces.len()
        invariant
            k <= pieces@.len(),
            pair_views(out@) == go_result_types(views(pieces@).take(k as int)),
        decreases pieces@.len() - k,
    {
        let ghost taken = views(pieces@).take(k + 1);
        assert(taken.drop_last() =~= views(pieces@).take(k as int));
        assert(taken.last() == pieces@[k as int]@);
        let t = trim_chars(&pieces[k]);
        if t.len() > 0 {
            push_pair(&mut out, ("result".to_owned(), string_of(&t)));
        }
        k = k + 1;
    }
    assert(views(pieces@).take(k as int) =~= views(pieces@));
    out
}

fn go_returns_of(rest: &[char]) -> (out: Vec<(String, String)>)
    ensures
        pair_views(out@) == go_returns(rest@),
{
    let r = trim_chars(rest);
    if r.len() > 0 && r[0] == '(' {
        proof {
            lemma_index_of(r@, ')');
        }
        let pe = paren_end_of(&r);
        let pieces = split_chars(&copy_range(&r, 1, pe), ',');
        let types = go_result_types_of(&pieces);
        if types.len() == 0 {
            single_pair("result", "Data")
        } else {
            types
        }
    } else {
        proof {
            lemma_index_of(r@, '{');
        }
        let head = match find_char(&r, '{') {
            Some(k) => {
                assert(r@.take(k as int) =~= r@.subrange(0, k as int));
                copy_range(&r, 0, k)
            },
            None => to_vec(&r),
        };
        let t = trim_chars(&head);
        if t.len() > 0 {
            single_pair_chars("result", &t)
        } else {
            single_pair("result", "Data")
        }
    }
}

/// Read a Go function's signature: the first line that begins with
/// `func <name>(` gives the parameters and the return type.
pub fn parse_go_function(func_name: &str, source: &str) -> (sig: FunctionSig)
    requires
        declaration_readable("func "@, func_name@, source@),
    ensures
        sig@ == go_signature(func_name@, source@),
{
    let name = chars_of(func_name);
    let src = chars_of(source);
    let pattern = prefix_chars("func ", &name);
    let all_lines = lines_of(&src);
    match find_line_starting(&all_lines, &pattern) {
        None => FunctionSig {
            name: func_name.to_owned(),
            params: no_pairs(),
            return_types: single_pair("result", "Data"),
            source_lang: "go".to_owned(),
        },
        Some(t) => {
            proof {
                lemma_index_of(t@, ')');
            }
            let pe = paren_end_of(&t);
            let tl = t.len();
            assert(pe < tl);
            let inside = copy_range(&t, pattern.len(), pe);
            let rest = copy_range(&t, pe + 1, tl);
            assert(rest@ =~= t@.skip(pe + 1));
            let pieces = split_chars(&inside, ',');
            FunctionSig {
                name: func_name.to_owned(),
                params: go_params_of(&pieces),
                return_types: go_returns_of(&rest),
                source_lang: "go".to_owned(),
            }
        },
    }
}


// ---------------------------------------------------------------- C

/// Whether a C line declares `name`: it holds `name(`, as in `type name(params)`.
pub open spec fn declares_name(t: Seq<char>, name: Seq<char>) -> bool {
    find(t, name + seq!['(']) is Some
}

/// The first trimmed line, from line `i` on, that declares `name` as `declares_name` says.
pub open spec fn line_declaring_from(lines: Seq<Seq<char>>, name: Seq<char>, i: int) -> Option<
    Seq<char>,
>
    decreases lines.len() - i,
{
    if i < 0 || i >= lines.len() {
        None
    } else if declares_name(trim(lines[i]), name) {
        Some(trim(lines[i]))
    } else {
        line_declaring_from(lines, name, i + 1)
    }
}

/// The parameters that the C parser reads from the comma-separated pieces:
/// the last word is the name, the words before it the type.
pub open spec fn c_params(pieces: Seq<Seq<char>>) -> Seq<(Seq<char>, Seq<char>)>
    decreases pieces.len(),
{
    if pieces.len() == 0 {
        Seq::empty()
    } else {
        let before = c_params(pieces.drop_last());
        let p = trim(pieces.last());
        if p.len() == 0 || p == "void"@ {
            before
        } else {
            let parts = words(p);
            if parts.len() >= 2 {
                before.push((parts.last(), join(parts.take(parts.len() - 1), " "@)))
            } else {
                before
            }
        }
    }
}

/// The text before the first `name(` of a line, trimmed; the whole line if there is none.
pub open spec fn c_return_text(t: Seq<char>, name: Seq<char>) -> Seq<char> {
    match find(t, name + seq!['(']) {
        Some(k) => trim(t.take(k)),
        None => trim(t),
    }
}

/// The parameters the C parser reads from a matched line.
pub open spec fn c_line_params(t: Seq<char>, name: Seq<char>) -> Seq<(Seq<char>, Seq<char>)> {
    match find(t, name + seq!['(']) {
        Some(st) => {
            let from_paren = t.skip(st);
            c_params(split(from_paren.subrange(name.len() + 1int, paren_end(from_paren)), ','))
        },
        None => Seq::empty(),
    }
}

/// The C declaration line of `name` can be read without a panic: after the first
/// `name(` of the line, the first `)` does not fall inside `name(` itself.
pub open spec fn c_declaration_readable(name: Seq<char>, source: Seq<char>) -> bool {
    match line_declaring_from(lines(source), name, 0) {
        None => true,
        Some(t) => find(t, name + seq!['(']) matches Some(st) ==> paren_end(t.skip(st))
            >= name.len() + 1,
    }
}

/// What `parse_c_function` reads for `name` from `source`.
pub open spec fn c_signature(name: Seq<char>, source: Seq<char>) -> SigView {
    match line_declaring_from(lines(source), name, 0) {
        None => sig_view(name, Seq::empty(), seq![("return"@, "void"@)], "c"@),
        Some(t) => {
            let before = c_return_text(t, name);
            sig_view(
                name,
                c_line_params(t, name),
                seq![("return"@, if before.len() > 0 { before } else { "void"@ })],
                "c"@,
            )
        },
    }
}

fn find_line_declaring(lines: &Vec<Vec<char>>, name: &[char]) -> (r: Option<Vec<char>>)
    ensures
        r matches Some(t) ==> line_declaring_from(views(lines@), name@, 0) == Some(t@),
        r is None ==> line_declaring_from(views(lines@), name@, 0) is None,
{
    let mut call = copy_range(name, 0, name.len());
    call.push('(');
    assert(name@.subrange(0, name@.len() as int) =~= name@);
    let mut i: usize = 0;
    while i < lines.len()
        invariant
            i <= lines@.len(),
            call@ == name@ + seq!['('],
            line_declaring_from(views(lines@), name@, i as int) == line_declaring_from(
                views(lines@),
                name@,
                0,
            ),
        decreases lines@.len() - i,
    {
        let t = trim_chars(&lines[i]);
        assert(views(lines@)[i as int] == lines@[i as int]@);
        if contains(&t, &call) {
            return Some(t);
        }
        i = i + 1;
    }
    None
}

pub(crate) fn c_params_of(pieces: &Vec<Vec<char>>) -> (out: Vec<(String, String)>)
    ensures
        pair_views(out@) == c_params(views(pieces@)),
{
    let mut out = no_pairs();
    let void_word = chars_of("void");
    let space = chars_of(" ");
    let mut k: usize = 0;
    while k < pieces.len()
        invariant
            k <= pieces@.len(),
            void_word@ == "void"@,
            space@ == " "@,
            pair_views(out@) == c_params(views(pieces@).take(k as int)),
        decreases pieces@.len() - k,
    {
        let ghost taken = views(pieces@).take(k + 1);
        assert(taken.drop_last() =~= views(pieces@).take(k as int));
        assert(taken.last() == pieces@[k as int]@);
        let p = trim_chars(&pieces[k]);
        if p.len() == 0 || same_chars(&p, &void_word) {
        } else {
            let parts = split_whitespace(&p);
            if parts.len() >= 2 {
                let last = parts.len() - 1;
                let ty = join_range(&parts, 0, last, &space);
                assert(views(parts@.subrange(0, last as int)) =~= views(parts@).take(last as int));
                assert(views(parts@).last() == parts@[last as int]@);
                push_pair(&mut out, pair_of(&parts[last], &ty));
            }
        }
        k = k + 1;
    }
    assert(views(pieces@).take(k as int) =~= views(pieces@));
    out
}

/// Read a C function's signature: the first line that holds `name(`, as in
/// `type name(params);`, gives the return type and the parameters.
pub fn parse_c_function(func_name: &str, source: &str) -> (sig: FunctionSig)
    requires
        c_declaration_readable(func_name@, source@),
    ensures
        sig@ == c_signature(func_name@, source@),
{
    let name = chars_of(func_name);
    let src = chars_of(source);
    let all_lines = lines_of(&src);
    match find_line_declaring(&all_lines, &name) {
        None => FunctionSig {
            name: func_name.to_owned(),
            params: no_pairs(),
            return_types: single_pair("return", "void"),
            source_lang: "c".to_owned(),
        },
        Some(t) => {
            let mut call = copy_range(&name, 0, name.len());
            call.push('(');
            assert(call@ =~= name@ + seq!['(']);
            let found = find_chars(&t, &call);
            proof {
                lemma_find(t@, call@);
            }
            let before = match found {
                Some(k) => {
                    assert(t@.take(k as int) =~= t@.subrange(0, k as int));
                    trim_chars(&copy_range(&t, 0, k))
                },
                None => trim_chars(&t),
            };
            let params = match found {
                Some(st) => {
                    let from_paren = copy_range(&t, st, t.len());
                    assert(from_paren@ =~= t@.skip(st as int));
                    let pe = paren_end_of(&from_paren);
                    let inside = copy_range(&from_paren, name.len() + 1, pe);
                    let pieces = split_chars(&inside, ',');
                    c_params_of(&pieces)
                },
                None => no_pairs(),
            };
            let return_types = if before.len() > 0 {
                single_pair_chars("return", &before)
            } else {
                single_pair("return", "void")
            };
            FunctionSig {
                name: func_name.to_owned(),
                params,
                return_types,
                source_lang: "c".to_owned(),
            }
        },
    }
}

// ---------------------------------------------------------------- shared: parameter text

/// The parameter text of a declaration line: what follows position `start`, up to the next `)`.
pub open spec fn params_text(t: Seq<char>, start: int) -> Seq<char> {
    let rest = t.skip(start);
    match index_of(rest, ')') {
        Some(k) => rest.take(k),
        None => rest,
    }
}

/// What follows the `)` that closes the parameter text; nothing where no `)` follows `start`.
pub open spec fn after_params(t: Seq<char>, start: int) -> Seq<char> {
    let rest = t.skip(start);
    match index_of(rest, ')') {
        Some(k) => rest.skip(k + 1),
        None => Seq::empty(),
    }
}

pub(crate) fn params_and_rest(t: &[char], start: usize) -> (r: (Vec<char>, Vec<char>))
    requires
        start <= t@.len(),
    ensures
        r.0@ == params_text(t@, start as int),
        r.1@ == after_params(t@, start as int),
{
    let rest = copy_range(t, start, t.len());
    assert(rest@ =~= t@.skip(start as int));
    proof {
        lemma_index_of(rest@, ')');
    }
    match find_char(&rest, ')') {
        Some(k) => {
            let inside = copy_range(&rest, 0, k);
            let after = copy_range(&rest, k + 1, rest.len());
            assert(inside@ =~= rest@.take(k as int));
            assert(after@ =~= rest@.skip(k + 1));
            (inside, after)
        },
        None => (rest, Vec::new()),
    }
}

/// The text of `s` before its first `{`; all of `s` where there is none.
pub open spec fn before_brace(s: Seq<char>) -> Seq<char> {
    match index_of(s, '{') {
        Some(k) => s.take(k),
        None => s,
    }
}

fn before_brace_of(s: &[char]) -> (out: Vec<char>)
    ensures
        out@ == before_brace(s@),
{
    proof {
        lemma_index_of(s@, '{');
    }
    match find_char(s, '{') {
        Some(k) => {
            assert(s@.take(k as int) =~= s@.subrange(0, k as int));
            copy_range(s, 0, k)
        },
        None => to_vec(s),
    }
}

/// The return types of a signature whose return type is not written down.
pub open spec fn untyped_returns() -> Seq<(Seq<char>, Seq<char>)> {
    seq![("return"@, "Data"@)]
}

// ---------------------------------------------------------------- JavaScript and Ruby

/// The parameters of an untyped parameter list: each piece that is not empty
/// once trimmed is a name, with the type `Data`.
pub open spec fn untyped_params(pieces: Seq<Seq<char>>) -> Seq<(Seq<char>, Seq<char>)>
    decreases pieces.len(),
{
    if pieces.len() == 0 {
        Seq::empty()
    } else if trim(pieces.last()).len() > 0 {
        untyped_params(pieces.drop_last()).push((trim(pieces.last()), "Data"@))
    } else {
        untyped_params(pieces.drop_last())
    }
}

/// What the parser for an untyped language reads: the first line that begins
/// with `keyword`, the name and `(` gives the parameter names.
pub open spec fn untyped_signature(
    keyword: Seq<char>,
    name: Seq<char>,
    source: Seq<char>,
    lang: Seq<char>,
) -> SigView {
    let pattern = declaration_prefix(keyword, name);
    match line_starting_with(source, pattern) {
        None => sig_view(name, Seq::empty(), untyped_returns(), lang),
        Some(t) => sig_view(
            name,
            untyped_params(split(params_text(t, pattern.len() as int), ',')),
            untyped_returns(),
            lang,
        ),
    }
}

fn untyped_params_of(pieces: &Vec<Vec<char>>) -> (out: Vec<(String, String)>)
    ensures
        pair_views(out@) == untyped_params(views(pieces@)),
{
    let mut out = no_pairs();
    let mut k: usize = 0;
    while k < pieces.len()
        invariant
            k <= pieces@.len(),
            pair_views(out@) == untyped_params(views(pieces@).take(k as int)),
        decreases pieces@.len() - k,
    {
        let ghost taken = views(pieces@).take(k + 1);
        assert(taken.drop_last() =~= views(pieces@).take(k as int));
        assert(taken.last() == pieces@[k as int]@);
        let p = trim_chars(&pieces[k]);
        if p.len() > 0 {
            push_pair(&mut out, (string_of(&p), "Data".to_owned()));
        }
        k = k + 1;
    }
    assert(views(pieces@).take(k as int) =~= views(pieces@));
    out
}

/// Read a signature whose parameters carry no types (JavaScript's
/// `function name(a, b)`, Ruby's `def name(a, b)`).
fn parse_untyped_function(keyword: &str, func_name: &str, source: &str, lang: &str) -> (sig:
    FunctionSig)
    ensures
        sig@ == untyped_signature(keyword@, func_name@, source@, lang@),
{
    let name = chars_of(func_name);
    let src = chars_of(source);
    let pattern = prefix_chars(keyword, &name);
    let all_lines = lines_of(&src);
    match find_line_starting(&all_lines, &pattern) {
        None => FunctionSig {
            name: func_name.to_owned(),
            params: no_pairs(),
            return_types: single_pair("return", "Data"),
            source_lang: lang.to_owned(),
        },
        Some(t) => {
            let (inside, _after) = params_and_rest(&t, pattern.len());
            let pieces = split_chars(&inside, ',');
            FunctionSig {
                name: func_name.to_owned(),
                params: untyped_params_of(&pieces),
                return_types: single_pair("return", "Data"),
                source_lang: lang.to_owned(),
            }
        },
    }
}

// ---------------------------------------------------------------- TypeScript

/// The parameters of a TypeScript parameter list: `name: type`, or a bare
/// name with the type `Data`.
pub open spec fn annotated_params(pieces: Seq<Seq<char>>) -> Seq<(Seq<char>, Seq<char>)>
    decreases pieces.len(),
{
    if pieces.len() == 0 {
        Seq::empty()
    } else {
        let before = annotated_params(pieces.drop_last());
        let p = trim(pieces.last());
        if p.len() == 0 {
            before
        } else {
            match index_of(p, ':') {
                Some(i) => before.push((trim(p.take(i)), trim(p.skip(i + 1)))),
                None => before.push((p, "Data"@)),
            }
        }
    }
}

/// The return type of `function name(params): type {`: the text after the
/// `:` up to the body's `{`.
pub open spec fn ts_returns(rest: Seq<char>) -> Seq<(Seq<char>, Seq<char>)> {
    let r = trim(rest);
    if r.len() > 0 && r[0] == ':' {
        let t = trim(before_brace(r.skip(1)));
        if t.len() > 0 {
            seq![("return"@, t)]
        } else {
            untyped_returns()
        }
    } else {
        untyped_returns()
    }
}

/// What the TypeScript parser reads for `name` from `source`.
pub open spec fn ts_signature(name: Seq<char>, source: Seq<char>) -> SigView {
    let pattern = declaration_prefix("function "@, name);
    match line_starting_with(source, pattern) {
        None => sig_view(name, Seq::empty(), untyped_returns(), "ts"@),
        Some(t) => sig_view(
            name,
            annotated_params(split(params_text(t, pattern.len() as int), ',')),
            ts_returns(after_params(t, pattern.len() as int)),
            "ts"@,
        ),
    }
}

fn annotated_params_of(pieces: &Vec<Vec<char>>) -> (out: Vec<(String, String)>)
    ensures
        pair_views(out@) == annotated_params(views(pieces@)),
{
    let mut out = no_pairs();
    let mut k: usize = 0;
    while k < pieces.len()
        invariant
            k <= pieces@.len(),
            pair_views(out@) == annotated_params(views(pieces@).take(k as int)),
        decreases pieces@.len() - k,
    {
        let ghost taken = views(pieces@).take(k + 1);
        assert(taken.drop_last() =~= views(pieces@).take(k as int));
        assert(taken.last() == pieces@[k as int]@);
        let p = trim_chars(&pieces[k]);
        if p.len() > 0 {
            proof {
                lemma_index_of(p@, ':');
            }
            match find_char(&p, ':') {
                Some(i) => {
                    let n = trim_chars(&copy_range(&p, 0, i));
                    let t = trim_chars(&copy_range(&p, i + 1, p.len()));
                    assert(p@.take(i as int) =~= p@.subrange(0, i as int));
                    assert(p@.skip(i + 1) =~= p@.subrange(i + 1, p@.len() as int));
                    push_pair(&mut out, pair_of(&n, &t));
                },
                None => {
                    push_pair(&mut out, (string_of(&p), "Data".to_owned()));
                },
            }
        }
        k = k + 1;
    }
    assert(views(pieces@).take(k as int) =~= views(pieces@));
    out
}

fn ts_returns_of(rest: &[char]) -> (out: Vec<(String, String)>)
    ensures
        pair_views(out@) == ts_returns(rest@),
{
    let r = trim_chars(rest);
    if r.len() > 0 && r[0] == ':' {
        let tail = copy_range(&r, 1, r.len());
        assert(tail@ =~= r@.skip(1));
        let t = trim_chars(&before_brace_of(&tail));
        if t.len() > 0 {
            single_pair_chars("return", &t)
        } else {
            single_pair("return", "Data")
        }
    } else {
        single_pair("return", "Data")
    }
}

/// Read a TypeScript function's signature: the first line that begins with
/// `function <name>(` gives the annotated parameters and the return type.
fn parse_ts_function(func_name: &str, source: &str) -> (sig: FunctionSig)
    ensures
        sig@ == ts_signature(func_name@, source@),
{
    let name = chars_of(func_name);
    let src = chars_of(source);
    let pattern = prefix_chars("function ", &name);
    let all_lines = lines_of(&src);
    match find_line_starting(&all_lines, &pattern) {
        None => FunctionSig {
            name: func_name.to_owned(),
            params: no_pairs(),
            return_types: single_pair("return", "Data"),
            source_lang: "ts".to_owned(),
        },
        Some(t) => {
            let (inside, after) = params_and_rest(&t, pattern.len());
            let pieces = split_chars(&inside, ',');
            FunctionSig {
                name: func_name.to_owned(),
                params: annotated_params_of(&pieces),
                return_types: ts_returns_of(&after),
                source_lang: "ts".to_owned(),
            }
        },
    }
}

// ---------------------------------------------------------------- Java and C#

/// The return type of a method declaration `modifiers type name(params)`: the
/// last word before the name, or `void` where there is none.
pub open spec fn method_return(before: Seq<char>) -> Seq<char> {
    let ws = words(before);
    if ws.len() > 0 {
        ws.last()
    } else {
        "void"@
    }
}

/// What the Java and C# parsers read: the first line that declares `name(`
/// gives the typed parameters (`Type name`) and the return type.
pub open spec fn method_signature(name: Seq<char>, source: Seq<char>, lang: Seq<char>) -> SigView {
    match line_declaring_from(lines(source), name, 0) {
        None => sig_view(name, Seq::empty(), seq![("return"@, "void"@)], lang),
        Some(t) => match find(t, name + seq!['(']) {
            Some(st) => sig_view(
                name,
                c_params(split(params_text(t, st + name.len() + 1), ',')),
                seq![("return"@, method_return(t.take(st)))],
                lang,
            ),
            None => sig_view(name, Seq::empty(), seq![("return"@, "void"@)], lang),
        },
    }
}

/// Read a Java or C# method's signature.
fn parse_method_function(func_name: &str, source: &str, lang: &str) -> (sig: FunctionSig)
    ensures
        sig@ == method_signature(func_name@, source@, lang@),
{
    let name = chars_of(func_name);
    let src = chars_of(source);
    let all_lines = lines_of(&src);
    let none = FunctionSig {
        name: func_name.to_owned(),
        params: no_pairs(),
        return_types: single_pair("return", "void"),
        source_lang: lang.to_owned(),
    };
    match find_line_declaring(&all_lines, &name) {
        None => none,
        Some(t) => {
            let mut call = copy_range(&name, 0, name.len());
            call.push('(');
            assert(name@.subrange(0, name@.len() as int) =~= name@);
            assert(call@ =~= name@ + seq!['(']);
            let found = find_chars(&t, &call);
            proof {
                lemma_find(t@, call@);
            }
            match found {
                None => none,
                Some(st) => {
                    assert(occurs_at(t@, call@, st as int));
                    let tl = t.len();
                    assert(st + call@.len() <= tl);
                    let (inside, _after) = params_and_rest(&t, st + call.len());
                    let pieces = split_chars(&inside, ',');
                    let before = copy_range(&t, 0, st);
                    assert(before@ =~= t@.take(st as int));
                    let parts = split_whitespace(&before);
                    let return_types = if parts.len() > 0 {
                        let last = parts.len() - 1;
                        assert(views(parts@).last() == parts@[last as int]@);
                        single_pair_chars("return", &parts[last])
                    } else {
                        single_pair("return", "void")
                    };
                    FunctionSig {
                        name: func_name.to_owned(),
                        params: c_params_of(&pieces),
                        return_types,
                        source_lang: lang.to_owned(),
                    }
                },
            }
        },
    }
}

/// Read the signature of `func_name` from `source` with the parser for `lang`
/// (python, rust, go, c, js, ts, ruby, java, csharp); a language without a
/// parser gives a signature with no parameters that returns one `Result` of
/// type `Data`.
pub fn parse_function(lang: &str, func_name: &str, source: &str) -> (sig: FunctionSig)
    requires
        signature_readable(lang@, func_name@, source@),
    ensures
        sig@ == signature_of(lang@, func_name@, source@),
{
    if str_eq(lang, "python") {
        parse_python_function(func_name, source)
    } else if str_eq(lang, "rust") {
        parse_rust_function(func_name, source)
    } else if str_eq(lang, "go") {
        parse_go_function(func_name, source)
    } else if str_eq(lang, "c") {
        parse_c_function(func_name, source)
    } else if str_eq(lang, "js") {
        parse_untyped_function("function ", func_name, source, lang)
    } else if str_eq(lang, "ts") {
        parse_ts_function(func_name, source)
    } else if str_eq(lang, "ruby") {
        parse_untyped_function("def ", func_name, source, lang)
    } else if str_eq(lang, "java") || str_eq(lang, "csharp") {
        parse_method_function(func_name, source, lang)
    } else {
        FunctionSig {
            name: func_name.to_owned(),
            params: no_pairs(),
            return_types: single_pair("Result", "Data"),
            source_lang: lang.to_owned(),
        }
    }
}

/// What `parse_function` reads for `name` from `source` in language `lang`.
pub open spec fn signature_of(lang: Seq<char>, name: Seq<char>, source: Seq<char>) -> SigView {
    if lang == "python"@ {
        python_signature(name, source)
    } else if lang == "rust"@ {
        rust_signature(name, source)
    } else if lang == "go"@ {
        go_signature(name, source)
    } else if lang == "c"@ {
        c_signature(name, source)
    } else if lang == "js"@ {
        untyped_signature("function "@, name, source, lang)
    } else if lang == "ts"@ {
        ts_signature(name, source)
    } else if lang == "ruby"@ {
        untyped_signature("def "@, name, source, lang)
    } else if lang == "java"@ || lang == "csharp"@ {
        method_signature(name, source, lang)
    } else {
        sig_view(name, Seq::empty(), seq![("Result"@, "Data"@)], lang)
    }
}

/// The parser for `lang` reads `source` without a panic.
pub open spec fn signature_readable(lang: Seq<char>, name: Seq<char>, source: Seq<char>) -> bool {
    if lang == "python"@ {
        declaration_readable("def "@, name, source)
    } else if lang == "rust"@ {
        declaration_readable("fn "@, name, source)
    } else if lang == "go"@ {
        declaration_readable("func "@, name, source)
    } else if lang == "c"@ {
        c_declaration_readable(name, source)
    } else {
        true
    }
}

fn declaration_check(
    all_lines: &Vec<Vec<char>>,
    keyword: &str,
    name: &[char],
    source: Ghost<Seq<char>>,
) -> (ok: bool)
    requires
        views(all_lines@) == lines(source@),
    ensures
        ok == declaration_readable(keyword@, name@, source@),
{
    let pattern = prefix_chars(keyword, name);
    match find_line_starting(all_lines, &pattern) {
        None => true,
        Some(t) => {
            proof {
                lemma_index_of(t@, ')');
            }
            match find_char(&t, ')') {
                None => false,
                Some(k) => k >= pattern.len(),
            }
        },
    }
}

fn c_check(all_lines: &Vec<Vec<char>>, name: &[char], source: Ghost<Seq<char>>) -> (ok: bool)
    requires
        views(all_lines@) == lines(source@),
    ensures
        ok == c_declaration_readable(name@, source@),
{
    match find_line_declaring(all_lines, name) {
        None => true,
        Some(t) => {
            let mut call = copy_range(name, 0, name.len());
            call.push('(');
            assert(call@ =~= name@ + seq!['(']);
            let found = find_chars(&t, &call);
            proof {
                lemma_find(t@, call@);
            }
            match found {
                Some(st) => {
                    let from_paren = copy_range(&t, st, t.len());
                    assert(from_paren@ =~= t@.skip(st as int));
                    paren_end_of(&from_paren) > name.len()
                },
                None => true,
            }
        },
    }
}

/// Whether the parser for `lang` can read `source` without a panic.
pub fn can_read_signature(lang: &str, func_name: &str, source: &str) -> (ok: bool)
    ensures
        ok == signature_readable(lang@, func_name@, source@),
{
    let name = chars_of(func_name);
    let src = chars_of(source);
    let all_lines = lines_of(&src);
    if str_eq(lang, "python") {
        declaration_check(&all_lines, "def ", &name, Ghost(source@))
    } else if str_eq(lang, "rust") {
        declaration_check(&all_lines, "fn ", &name, Ghost(source@))
    } else if str_eq(lang, "go") {
        declaration_check(&all_lines, "func ", &name, Ghost(source@))
    } else if str_eq(lang, "c") {
        c_check(&all_lines, &name, Ghost(source@))
    } else {
        true
    }
}

} // verus!
