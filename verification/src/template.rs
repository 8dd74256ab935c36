//! Filling text templates: fixed pieces of text with values between them.
use crate::text::{extend_chars, extend_str, string_of, views};
use vstd::prelude::*;

verus! {

/// The character sequences of a list of string slices.
pub open spec fn str_views(v: Seq<&str>) -> Seq<Seq<char>> {
    v.map_values(|x: &str| x@)
}

/// The first text, then for each of the first `k` values that value and the text after it.
pub open spec fn fill_upto(texts: Seq<Seq<char>>, values: Seq<Seq<char>>, k: int) -> Seq<char>
    decreases k,
{
    if k <= 0 {
        texts[0]
    } else {
        fill_upto(texts, values, k - 1) + values[k - 1] + texts[k]
    }
}

/// A template with `texts` around its placeholders, filled with `values`:
/// `texts[0] + values[0] + texts[1] + ... + values[n-1] + texts[n]`.
pub open spec fn fill(texts: Seq<Seq<char>>, values: Seq<Seq<char>>) -> Seq<char> {
    fill_upto(texts, values, values.len() as int)
}

/// Fill a template: `texts` holds one more piece than `values`.
pub fn fill_chars(texts: &[&str], values: &Vec<Vec<char>>) -> (out: Vec<char>)
    requires
        texts@.len() == values@.len() + 1,
    ensures
        out@ == fill(str_views(texts@), views(values@)),
{
    let ghost t = str_views(texts@);
    let ghost v = views(values@);
    let mut out: Vec<char> = Vec::new();
    extend_str(&mut out, texts[0]);
    assert(out@ =~= fill_upto(t, v, 0));
    let mut k: usize = 0;
    while k < values.len()
        invariant
            texts@.len() == values@.len() + 1,
            t == str_views(texts@),
            v == views(values@),
            k <= values@.len(),
            out@ == fill_upto(t, v, k as int),
        decreases values@.len() - k,
    {
        extend_chars(&mut out, &values[k]);
        extend_str(&mut out, texts[k + 1]);
        k = k + 1;
    }
    out
}

/// Fill a template into a `String`.
pub fn fill_template(texts: &[&str], values: &Vec<Vec<char>>) -> (out: String)
    requires
        texts@.len() == values@.len() + 1,
    ensures
        out@ == fill(str_views(texts@), views(values@)),
{
    string_of(&fill_chars(texts, values))
}

} // verus!
