//! Small verified helpers on strings.

use vstd::prelude::*;
use vstd::string::StringExecFns;

verus! {

/// Whether two string slices hold the same characters.
pub fn same_text(a: &str, b: &str) -> (r: bool)
    ensures
        r == (a@ == b@),
{
    let x = String::from_str(a);
    let y = String::from_str(b);
    x == y
}

/// `a` followed by `b`.
pub fn join2(a: &str, b: &str) -> (r: String)
    ensures
        r@ == a@ + b@,
{
    String::from_str(a).concat(b)
}

/// The characters of `s`, in order.
pub fn chars_of(s: &str) -> (v: Vec<char>)
    ensures
        v@ == s@,
{
    let mut v: Vec<char> = Vec::new();
    for c in it: s.chars()
        invariant
            v@ == it.seq().take(it.index() as int),
            it.seq() == s@,
    {
        v.push(c);
    }
    v
}

/// Calls `String::from_iter` on the characters of `v`: the string that holds
/// exactly those characters, in the same order.
#[verifier::external_body]
pub(crate) fn text_of_chars(v: &Vec<char>) -> (s: String)
    ensures
        s@ == v@,
{
    String::from_iter(v.iter())
}

/// What `str::to_uppercase` returns for `s`.
pub uninterp spec fn uppercased(s: Seq<char>) -> Seq<char>;

/// What `str::to_lowercase` returns for `s`.
pub uninterp spec fn lowercased(s: Seq<char>) -> Seq<char>;

/// Calls `str::to_uppercase`; the result is given the name `uppercased`.
#[verifier::external_body]
pub(crate) fn to_uppercase(s: &str) -> (r: String)
    ensures
        r@ == uppercased(s@),
{
    s.to_uppercase()
}

/// Calls `str::to_lowercase`; the result is given the name `lowercased`.
#[verifier::external_body]
pub(crate) fn to_lowercase(s: &str) -> (r: String)
    ensures
        r@ == lowercased(s@),
{
    s.to_lowercase()
}

/// `s` with every occurrence of `pat` replaced by `to`, found from left to
/// right without overlap. An empty `pat` occurs nowhere.
pub open spec fn replaced(s: Seq<char>, pat: Seq<char>, to: Seq<char>) -> Seq<char>
    decreases s.len(),
{
    if pat.len() == 0 || s.len() < pat.len() {
        s
    } else if s.subrange(0, pat.len() as int) == pat {
        to + replaced(s.skip(pat.len() as int), pat, to)
    } else {
        seq![s[0]] + replaced(s.skip(1), pat, to)
    }
}

/// Whether `pat` stands in `s` at index `i`.
pub open spec fn occurs_at(s: Seq<char>, pat: Seq<char>, i: int) -> bool {
    0 <= i && i + pat.len() <= s.len() && s.subrange(i, i + pat.len()) == pat
}

fn matches_at(s: &Vec<char>, pat: &Vec<char>, i: usize) -> (r: bool)
    requires
        i <= s.len(),
    ensures
        r == occurs_at(s@, pat@, i as int),
{
    if pat.len() > s.len() - i {
        return false;
    }
    let mut k: usize = 0;
    while k < pat.len()
        invariant
            k <= pat.len(),
            i + pat.len() <= s.len(),
            forall|j: int| 0 <= j < k ==> s@[i + j] == pat@[j],
        decreases pat.len() - k,
    {
        if s[i + k] != pat[k] {
            assert(s@.subrange(i as int, i + pat.len())[k as int] != pat@[k as int]);
            return false;
        }
        k += 1;
    }
    assert(s@.subrange(i as int, i + pat.len()) =~= pat@);
    true
}

/// Replaces every occurrence of `pat` in `s` by `to`.
pub fn replace(s: &str, pat: &str, to: &str) -> (r: String)
    ensures
        r@ == replaced(s@, pat@, to@),
{
    let sv = chars_of(s);
    let pv = chars_of(pat);
    let tv = chars_of(to);
    let mut out: Vec<char> = Vec::new();
    let mut i: usize = 0;
    if pv.len() == 0 {
        return String::from_str(s);
    }
    assert(sv@.skip(0) =~= sv@);
    assert(out@ + replaced(sv@, pv@, tv@) =~= replaced(sv@, pv@, tv@));
    while i < sv.len()
        invariant
            i <= sv.len(),
            pv.len() > 0,
            sv@ == s@,
            pv@ == pat@,
            tv@ == to@,
            replaced(s@, pat@, to@) == out@ + replaced(sv@.skip(i as int), pv@, tv@),
        decreases sv.len() - i,
    {
        let ghost rest = sv@.skip(i as int);
        if matches_at(&sv, &pv, i) {
            assert(rest.subrange(0, pv.len() as int) =~= sv@.subrange(i as int, i + pv.len()));
            assert(rest.skip(pv.len() as int) =~= sv@.skip(i + pv.len()));
            let mut k: usize = 0;
            let ghost before = out@;
            while k < tv.len()
                invariant
                    k <= tv.len(),
                    out@ == before + tv@.take(k as int),
                decreases tv.len() - k,
            {
                out.push(tv[k]);
                assert(tv@.take(k + 1) =~= tv@.take(k as int).push(tv@[k as int]));
                k += 1;
            }
            assert(tv@.take(tv.len() as int) =~= tv@);
            assert(out@ + replaced(sv@.skip(i + pv.len()), pv@, tv@) =~= before + (tv@
                + replaced(rest.skip(pv.len() as int), pv@, tv@)));
            i += pv.len();
        } else {
            assert(rest.len() >= pv.len() ==> rest.subrange(0, pv.len() as int) =~= sv@.subrange(
                i as int,
                i + pv.len(),
            ));
            if sv.len() - i < pv.len() {
                // no occurrence fits in what is left
                let mut k: usize = i;
                let ghost before = out@;
                while k < sv.len()
                    invariant
                        i <= k <= sv.len(),
                        out@ == before + sv@.subrange(i as int, k as int),
                    decreases sv.len() - k,
                {
                    out.push(sv[k]);
                    assert(sv@.subrange(i as int, k + 1) =~= sv@.subrange(i as int, k as int).push(
                        sv@[k as int],
                    ));
                    k += 1;
                }
                assert(sv@.subrange(i as int, sv.len() as int) =~= rest);
                assert(sv@.skip(sv.len() as int) =~= Seq::<char>::empty());
                assert(out@ + replaced(sv@.skip(sv.len() as int), pv@, tv@) =~= before + rest);
                i = sv.len();
            } else {
                assert(rest.skip(1) =~= sv@.skip(i + 1));
                assert(rest[0] == sv@[i as int]);
                let ghost before = out@;
                out.push(sv[i]);
                assert(out@ + replaced(sv@.skip(i + 1), pv@, tv@) =~= before + (seq![rest[0]]
                    + replaced(rest.skip(1), pv@, tv@)));
                i += 1;
            }
        }
    }
    assert(sv@.skip(sv.len() as int) =~= Seq::<char>::empty());
    assert(out@ + Seq::<char>::empty() =~= out@);
    text_of_chars(&out)
}

/// A copy of a list of strings.
pub fn clone_texts(list: &Vec<String>) -> (out: Vec<String>)
    ensures
        out@.len() == list@.len(),
        forall|i: int| 0 <= i < list@.len() ==> (#[trigger] out@[i])@ == list@[i]@,
{
    let mut out: Vec<String> = Vec::new();
    let mut i: usize = 0;
    while i < list.len()
        invariant
            i <= list@.len(),
            out@.len() == i,
            forall|j: int| 0 <= j < i ==> (#[trigger] out@[j])@ == list@[j]@,
        decreases list@.len() - i,
    {
        out.push(list[i].clone());
        i += 1;
    }
    out
}

} // verus!
