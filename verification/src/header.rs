//! The function prototypes that a C header declares, as `bind` reads them.
use crate::signature::{c_params, c_params_of, pair_views, params_and_rest, params_text, sig_view, FunctionSig, SigView};
use crate::text::{
    chars_of, copy_range, find_char, index_of, lemma_index_of, lines, lines_of, occurs_at,
    split, split_chars, starts_with, string_of, trim, trim_chars, views,
};
use vstd::prelude::*;

verus! {

/// Whether `c` can stand in a C identifier.
pub open spec fn is_ident_char(c: char) -> bool {
    ('a' <= c && c <= 'z') || ('A' <= c && c <= 'Z') || ('0' <= c && c <= '9') || c == '_'
}

/// The length of the run of identifier characters at the end of `s`.
pub open spec fn ident_suffix_len(s: Seq<char>) -> nat
    decreases s.len(),
{
    if s.len() > 0 && is_ident_char(s.last()) {
        1 + ident_suffix_len(s.drop_last())
    } else {
        0
    }
}

proof fn lemma_ident_suffix_len(s: Seq<char>)
    ensures
        ident_suffix_len(s) <= s.len(),
    decreases s.len(),
{
    if s.len() > 0 && is_ident_char(s.last()) {
        lemma_ident_suffix_len(s.drop_last());
    }
}

/// The name, return type and parameter text of a trimmed header line that
/// declares a function: the line ends with `);`, does not start with `#`, `/`,
/// `*` or `typedef`, and before its first `(` stand a return type and then a
/// name made of identifier characters. `None` for any other line.
pub open spec fn prototype_parts(t: Seq<char>) -> Option<(Seq<char>, Seq<char>, Seq<char>)> {
    match index_of(t, '(') {
        None => None,
        Some(k) => {
            let before = trim(t.take(k));
            let n = ident_suffix_len(before);
            let name = before.skip(before.len() - n);
            let ret = trim(before.take(before.len() - n));
            if t.len() >= 2 && t.last() == ';' && t[t.len() - 2] == ')' && t[0] != '#' && t[0]
                != '/' && t[0] != '*' && !occurs_at(t, "typedef"@, 0) && n > 0 && ret.len() > 0 {
                Some((name, ret, params_text(t, k + 1)))
            } else {
                None
            }
        },
    }
}

/// The signature that a prototype's parts declare.
pub open spec fn prototype_sig(parts: (Seq<char>, Seq<char>, Seq<char>)) -> SigView {
    sig_view(parts.0, c_params(split(parts.2, ',')), seq![("return"@, parts.1)], "c"@)
}

/// The signatures of the prototypes among `lines`, in order.
pub open spec fn prototypes(lines: Seq<Seq<char>>) -> Seq<SigView>
    decreases lines.len(),
{
    if lines.len() == 0 {
        Seq::empty()
    } else {
        match prototype_parts(trim(lines.last())) {
            Some(p) => prototypes(lines.drop_last()).push(prototype_sig(p)),
            None => prototypes(lines.drop_last()),
        }
    }
}

/// The functions that the header text `source` declares, one per prototype line.
pub open spec fn header_prototypes(source: Seq<char>) -> Seq<SigView> {
    prototypes(lines(source))
}

/// The signatures of a list of `FunctionSig`s.
pub open spec fn sig_views(v: Seq<FunctionSig>) -> Seq<SigView> {
    v.map_values(|f: FunctionSig| f@)
}

fn char_is_ident(c: char) -> (b: bool)
    ensures
        b == is_ident_char(c),
{
    ('a' <= c && c <= 'z') || ('A' <= c && c <= 'Z') || ('0' <= c && c <= '9') || c == '_'
}

fn ident_suffix_len_of(s: &[char]) -> (n: usize)
    ensures
        n == ident_suffix_len(s@),
        n <= s@.len(),
{
    let mut n: usize = 0;
    proof {
        lemma_ident_suffix_len(s@);
    }
    assert(s@.take(s@.len() as int) =~= s@);
    while n < s.len() && char_is_ident(s[s.len() - 1 - n])
        invariant
            n <= s@.len(),
            n <= ident_suffix_len(s@),
            ident_suffix_len(s@) == n + ident_suffix_len(s@.take(s@.len() - n)),
        decreases s@.len() - n,
    {
        let ghost pre = s@.take(s@.len() - n);
        assert(pre.drop_last() =~= s@.take(s@.len() - (n + 1)));
        n = n + 1;
    }
    n
}

fn prototype_parts_of(t: &[char]) -> (r: Option<(Vec<char>, Vec<char>, Vec<char>)>)
    ensures
        match r {
            Some(p) => prototype_parts(t@) == Some((p.0@, p.1@, p.2@)),
            None => prototype_parts(t@) is None,
        },
{
    proof {
        lemma_index_of(t@, '(');
    }
    match find_char(t, '(') {
        None => None,
        Some(k) => {
            let pre = copy_range(t, 0, k);
            assert(pre@ =~= t@.take(k as int));
            let before = trim_chars(&pre);
            let n = ident_suffix_len_of(&before);
            let cut = before.len() - n;
            let name = copy_range(&before, cut, before.len());
            assert(name@ =~= before@.skip(cut as int));
            let head = copy_range(&before, 0, cut);
            assert(head@ =~= before@.take(cut as int));
            let ret = trim_chars(&head);
            let len = t.len();
            if len >= 2 && t[len - 1] == ';' && t[len - 2] == ')' && t[0] != '#' && t[0] != '/'
                && t[0] != '*' && !starts_with(t, &chars_of("typedef")) && n > 0 && ret.len()
                > 0 {
                let (inside, _after) = params_and_rest(t, k + 1);
                Some((name, ret, inside))
            } else {
                None
            }
        },
    }
}

/// The functions that the C header text `header` declares: one signature per
/// prototype line (`type name(params);`), in the order of the lines.
pub fn header_functions(header: &str) -> (sigs: Vec<FunctionSig>)
    ensures
        sig_views(sigs@) == header_prototypes(header@),
{
    let src = chars_of(header);
    let all = lines_of(&src);
    let ghost ls = views(all@);
    let mut sigs: Vec<FunctionSig> = Vec::new();
    let mut i: usize = 0;
    while i < all.len()
        invariant
            i <= all@.len(),
            ls == views(all@),
            ls == lines(header@),
            sig_views(sigs@) == prototypes(ls.take(i as int)),
        decreases all@.len() - i,
    {
        let ghost taken = ls.take(i + 1);
        assert(taken.drop_last() =~= ls.take(i as int));
        assert(taken.last() == all@[i as int]@);
        let t = trim_chars(&all[i]);
        match prototype_parts_of(&t) {
            Some(p) => {
                let pieces = split_chars(&p.2, ',');
                let sig = FunctionSig {
                    name: string_of(&p.0),
                    params: c_params_of(&pieces),
                    return_types: vec![("return".to_owned(), string_of(&p.1))],
                    source_lang: "c".to_owned(),
                };
                let ghost before = sig_views(sigs@);
                assert(pair_views(sig.return_types@) =~= seq![("return"@, p.1@)]);
                assert(sig@ == prototype_sig((p.0@, p.1@, p.2@)));
                sigs.push(sig);
                assert(sig_views(sigs@) =~= before.push(prototype_sig((p.0@, p.1@, p.2@))));
            },
            None => {},
        }
        i = i + 1;
    }
    assert(ls.take(i as int) =~= ls);
    sigs
}

} // verus!
