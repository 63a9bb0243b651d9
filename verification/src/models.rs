use vstd::prelude::*;

use crate::text::{chars_of, ends_with, str_ends_with, string_from};

verus! {

broadcast use vstd::seq_lib::group_to_multiset_ensures;

/// An entry of the models folder.
#[derive(Debug)]
pub struct ModelEntry {
    /// The file name.
    pub name: String,
    /// The entry is a regular file.
    pub is_file: bool,
}

/// A file name that a model is stored under: `.pth` or `.safetensors`.
pub open spec fn is_model_file_name(n: Seq<char>) -> bool {
    ends_with(n, ".pth"@) || ends_with(n, ".safetensors"@)
}

/// The names of the model files among `es`, in the order of `es`.
pub open spec fn model_file_names(es: Seq<ModelEntry>) -> Seq<Seq<char>>
    decreases es.len(),
{
    if es.len() == 0 {
        Seq::empty()
    } else {
        let rest = model_file_names(es.drop_last());
        let e = es.last();
        if e.is_file && is_model_file_name(e.name@) {
            rest.push(e.name@)
        } else {
            rest
        }
    }
}


/// An entry is listed: a regular file whose name ends with `.pth` or `.safetensors`.
pub open spec fn listed_entry(e: ModelEntry) -> bool {
    e.is_file && (ends_with(e.name@, ".pth"@) || ends_with(e.name@, ".safetensors"@))
}

/// `n` is the name of a listed entry of `es`.
pub open spec fn names_listed_entry(es: Seq<ModelEntry>, n: Seq<char>) -> bool {
    exists|i: int| 0 <= i < es.len() && listed_entry(#[trigger] es[i]) && es[i].name@ == n
}

/// Law: the model names are those of the listed entries, all of them: every listed entry's
/// name is among them, every name is that of a listed entry, and there are as many names
/// as listed entries.
pub proof fn lemma_model_names_complete(es: Seq<ModelEntry>)
    ensures
        model_file_names(es).len() == es.filter(|e: ModelEntry| listed_entry(e)).len(),
        forall|i: int| 0 <= i < es.len() && listed_entry(#[trigger] es[i]) ==> model_file_names(es).contains(es[i].name@),
        forall|k: int|
            0 <= k < model_file_names(es).len() ==> names_listed_entry(
                es,
                #[trigger] model_file_names(es)[k],
            ),
    decreases es.len(),
{
    reveal_with_fuel(Seq::filter, 1);
    if es.len() > 0 {
        let r = es.drop_last();
        lemma_model_names_complete(r);
        let rest = model_file_names(r);
        let e = es.last();
        assert forall|i: int| 0 <= i < es.len() && listed_entry(#[trigger] es[i]) implies model_file_names(es).contains(es[i].name@) by {
            if i < es.len() - 1 {
                assert(r[i] == es[i]);
                let j = choose|j: int| 0 <= j < rest.len() && rest[j] == es[i].name@;
                if listed_entry(e) {
                    assert(model_file_names(es)[j] == es[i].name@);
                }
            } else {
                assert(model_file_names(es)[rest.len() as int] == es[i].name@);
            }
        }
        assert forall|k: int| 0 <= k < model_file_names(es).len() implies names_listed_entry(
            es,
            #[trigger] model_file_names(es)[k],
        ) by {
            if k < rest.len() {
                assert(names_listed_entry(r, rest[k]));
                let i = choose|i: int| 0 <= i < r.len() && listed_entry(#[trigger] r[i]) && r[i].name@ == rest[k];
                assert(es[i] == r[i]);
                assert(model_file_names(es)[k] == rest[k]);
            } else {
                assert(es[es.len() - 1] == e);
            }
        }
    }
}

/// `a` comes before `b` or equals it, comparing characters by code point
/// (the order of `String`, which compares UTF-8 bytes).
pub open spec fn lex_le(a: Seq<char>, b: Seq<char>) -> bool
    decreases a.len(),
{
    if a.len() == 0 {
        true
    } else if b.len() == 0 {
        false
    } else if a[0] != b[0] {
        (a[0] as int) < (b[0] as int)
    } else {
        lex_le(a.drop_first(), b.drop_first())
    }
}

/// `s` is in ascending order.
pub open spec fn sorted(s: Seq<Seq<char>>) -> bool {
    forall|i: int, j: int| 0 <= i < j < s.len() ==> lex_le(#[trigger] s[i], #[trigger] s[j])
}

/// Law: any two names are ordered one way or the other.
pub proof fn lemma_lex_total(a: Seq<char>, b: Seq<char>)
    ensures
        lex_le(a, b) || lex_le(b, a),
    decreases a.len(),
{
    if a.len() > 0 && b.len() > 0 {
        if a[0] == b[0] {
            lemma_lex_total(a.drop_first(), b.drop_first());
        } else {
            assert((a[0] as int) != (b[0] as int));
        }
    }
}

/// Law: the order is transitive.
pub proof fn lemma_lex_transitive(a: Seq<char>, b: Seq<char>, c: Seq<char>)
    requires
        lex_le(a, b),
        lex_le(b, c),
    ensures
        lex_le(a, c),
    decreases a.len(),
{
    if a.len() > 0 && b.len() > 0 && c.len() > 0 && a[0] == b[0] && b[0] == c[0] {
        lemma_lex_transitive(a.drop_first(), b.drop_first(), c.drop_first());
    }
}

/// Law: two names ordered both ways are equal.
pub proof fn lemma_lex_antisymmetric(a: Seq<char>, b: Seq<char>)
    requires
        lex_le(a, b),
        lex_le(b, a),
    ensures
        a == b,
    decreases a.len(),
{
    if a.len() > 0 && b.len() > 0 {
        lemma_lex_antisymmetric(a.drop_first(), b.drop_first());
        assert(a == seq![a[0]] + a.drop_first());
        assert(b == seq![b[0]] + b.drop_first());
    }
}

/// `lex_le(a, b)`.
fn lex_le_exec(a: &Vec<char>, b: &Vec<char>) -> (r: bool)
    ensures
        r == lex_le(a@, b@),
{
    let mut i: usize = 0;
    assert(a@.skip(0) == a@ && b@.skip(0) == b@);
    while i < a.len() && i < b.len() && a[i] == b[i]
        invariant
            i <= a.len(),
            i <= b.len(),
            lex_le(a@, b@) == lex_le(a@.skip(i as int), b@.skip(i as int)),
        decreases a.len() - i,
    {
        assert(a@.skip(i as int).drop_first() == a@.skip(i + 1));
        assert(b@.skip(i as int).drop_first() == b@.skip(i + 1));
        i += 1;
    }
    if i == a.len() {
        true
    } else if i == b.len() {
        false
    } else {
        a[i] < b[i]
    }
}

/// Inserts `x` into the ascending `r`, keeping it ascending.
fn insert_sorted(r: &mut Vec<Vec<char>>, x: Vec<char>)
    requires
        sorted(old(r)@.map_values(|k: Vec<char>| k@)),
    ensures
        sorted(final(r)@.map_values(|k: Vec<char>| k@)),
        final(r)@.map_values(|k: Vec<char>| k@).to_multiset() == old(r)@.map_values(
            |k: Vec<char>| k@,
        ).to_multiset().insert(x@),
{
    let ghost keys = r@.map_values(|k: Vec<char>| k@);
    let mut p: usize = 0;
    while p < r.len() && lex_le_exec(&r[p], &x)
        invariant
            p <= r.len(),
            r@.map_values(|k: Vec<char>| k@) == keys,
            forall|i: int| 0 <= i < p ==> lex_le(#[trigger] keys[i], x@),
        decreases r.len() - p,
    {
        p += 1;
    }
    proof {
        if p < r.len() {
            lemma_lex_total(keys[p as int], x@);
            assert forall|i: int| p <= i < keys.len() implies lex_le(x@, #[trigger] keys[i]) by {
                if i > p {
                    lemma_lex_transitive(x@, keys[p as int], keys[i]);
                }
            }
        }
    }
    let ghost xv = x@;
    r.insert(p, x);
    proof {
        let nk = r@.map_values(|k: Vec<char>| k@);
        assert(nk =~= keys.insert(p as int, xv));
        assert forall|i: int, j: int| 0 <= i < j < nk.len() implies lex_le(
            #[trigger] nk[i],
            #[trigger] nk[j],
        ) by {
            if j < p {
            } else if i < p && j == p {
            } else if i < p && j > p {
                lemma_lex_transitive(keys[i], xv, keys[j - 1]);
            } else if i == p {
            } else {
            }
        }
        vstd::seq_lib::to_multiset_insert(keys, p as int, xv);
    }
}

/// The names of the model files among `entries`, in ascending order: what
/// `get_available_models` lists.
pub fn select_model_files(entries: &Vec<ModelEntry>) -> (out: Vec<String>)
    ensures
        sorted(out@.map_values(|s: String| s@)),
        out@.map_values(|s: String| s@).to_multiset() == model_file_names(entries@).to_multiset(),
        out@.len() == entries@.filter(|e: ModelEntry| listed_entry(e)).len(),
        forall|i: int|
            0 <= i < entries@.len() && listed_entry(#[trigger] entries@[i]) ==> out@.map_values(
                |s: String| s@,
            ).contains(entries@[i].name@),
        forall|k: int| 0 <= k < out@.len() ==> names_listed_entry(entries@, (#[trigger] out@[k])@),
{
    let mut keys: Vec<Vec<char>> = Vec::new();
    let mut i: usize = 0;
    while i < entries.len()
        invariant
            i <= entries.len(),
            sorted(keys@.map_values(|k: Vec<char>| k@)),
            keys@.map_values(|k: Vec<char>| k@).to_multiset() == model_file_names(
                entries@.take(i as int),
            ).to_multiset(),
        decreases entries.len() - i,
    {
        let e = &entries[i];
        assert(entries@.take(i + 1).drop_last() == entries@.take(i as int));
        if e.is_file && (str_ends_with(e.name.as_str(), ".pth") || str_ends_with(
            e.name.as_str(),
            ".safetensors",
        )) {
            let k = chars_of(e.name.as_str());
            insert_sorted(&mut keys, k);
        }
        i += 1;
    }
    assert(entries@.take(entries.len() as int) == entries@);
    let mut out: Vec<String> = Vec::new();
    let mut j: usize = 0;
    while j < keys.len()
        invariant
            j <= keys.len(),
            out@.len() == j,
            forall|k: int| 0 <= k < j ==> #[trigger] out@[k]@ == keys@[k]@,
        decreases keys.len() - j,
    {
        let s = string_from(&keys[j], 0, keys[j].len());
        assert(keys@[j as int]@.subrange(0, keys@[j as int]@.len() as int) == keys@[j as int]@);
        out.push(s);
        j += 1;
    }
    assert(out@.map_values(|s: String| s@) =~= keys@.map_values(|k: Vec<char>| k@));
    proof {
        let names = out@.map_values(|s: String| s@);
        let spec_names = model_file_names(entries@);
        lemma_model_names_complete(entries@);
        names.to_multiset_ensures();
        spec_names.to_multiset_ensures();
        assert(names.len() == spec_names.len()) by {
            vstd::seq_lib::to_multiset_len(names);
            vstd::seq_lib::to_multiset_len(spec_names);
        }
        assert forall|i: int|
            0 <= i < entries@.len() && listed_entry(#[trigger] entries@[i]) implies names.contains(
            entries@[i].name@) by {
            assert(spec_names.to_multiset().count(entries@[i].name@) > 0);
        }
        assert forall|k: int| 0 <= k < out@.len() implies names_listed_entry(
            entries@,
            (#[trigger] out@[k])@,
        ) by {
            assert(names[k] == out@[k]@);
            assert(names.to_multiset().count(names[k]) > 0);
            assert(spec_names.contains(names[k]));
            let j = choose|j: int| 0 <= j < spec_names.len() && spec_names[j] == names[k];
            assert(names_listed_entry(entries@, spec_names[j]));
        }
    }
    out
}

} // verus!
