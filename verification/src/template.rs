//! Templates: text in which tokens stand for values. A template is read once
//! from left to right. Where a token starts, its value is written in its
//! place and the reading goes on behind the token; every other character is
//! kept as it is. A value is never read again, so a token inside a value
//! stays as it stands.

use vstd::prelude::*;
use vstd::slice::slice_subrange;

use crate::text::{push_all, starts_with};

verus! {

/// A token and the value that replaces it.
pub type Binding = (Seq<char>, Seq<char>);

/// A token and the value that replaces it, as characters.
pub struct Replacement {
    pub token: Vec<char>,
    pub value: Vec<char>,
}

impl View for Replacement {
    type V = Binding;

    open spec fn view(&self) -> Binding {
        (self.token@, self.value@)
    }
}

/// What a list of replacements stands for.
pub open spec fn bindings_of(list: Seq<Replacement>) -> Seq<Binding> {
    Seq::new(list.len(), |i: int| list[i]@)
}

/// Whether `token` stands at the start of `s`. The empty token stands nowhere.
pub open spec fn starts_token(token: Seq<char>, s: Seq<char>) -> bool {
    token.len() > 0 && token.is_prefix_of(s)
}

/// The index of the first binding from index `from` on whose token stands at
/// the start of `s`.
pub open spec fn match_from(bindings: Seq<Binding>, s: Seq<char>, from: int) -> Option<int>
    decreases bindings.len() - from,
{
    if from < 0 || from >= bindings.len() {
        None
    } else if starts_token(bindings[from].0, s) {
        Some(from)
    } else {
        match_from(bindings, s, from + 1)
    }
}

/// The index of the first binding whose token stands at the start of `s`.
pub open spec fn first_match(bindings: Seq<Binding>, s: Seq<char>) -> Option<int> {
    match_from(bindings, s, 0)
}

/// The template `s` with each token replaced by its value.
pub open spec fn expand(bindings: Seq<Binding>, s: Seq<char>) -> Seq<char>
    decreases s.len(),
    via expand_decreases
{
    if s.len() == 0 {
        Seq::empty()
    } else {
        match first_match(bindings, s) {
            Some(k) => bindings[k].1 + expand(bindings, s.skip(bindings[k].0.len() as int)),
            None => seq![s[0]] + expand(bindings, s.skip(1)),
        }
    }
}

#[via_fn]
proof fn expand_decreases(bindings: Seq<Binding>, s: Seq<char>) {
    if s.len() != 0 {
        lemma_match_from(bindings, s, 0);
    }
}

/// A match is a binding of the list whose token stands at the start of `s`,
/// and no binding between `from` and it does.
pub proof fn lemma_match_from(bindings: Seq<Binding>, s: Seq<char>, from: int)
    requires
        0 <= from,
    ensures
        match match_from(bindings, s, from) {
            Some(k) => {
                &&& from <= k < bindings.len()
                &&& starts_token(bindings[k].0, s)
                &&& forall|j: int| from <= j < k ==> !starts_token(#[trigger] bindings[j].0, s)
            },
            None => forall|j: int|
                from <= j < bindings.len() ==> !starts_token(#[trigger] bindings[j].0, s),
        },
    decreases bindings.len() - from,
{
    if from < bindings.len() && !starts_token(bindings[from].0, s) {
        lemma_match_from(bindings, s, from + 1);
    }
}

/// Finds the first replacement whose token stands at the start of `s`.
fn find_match(list: &Vec<Replacement>, s: &[char]) -> (found: Option<usize>)
    ensures
        match first_match(bindings_of(list@), s@) {
            Some(k) => found == Some(k as usize) && k < list.len(),
            None => found is None,
        },
{
    let mut k: usize = 0;
    while k < list.len()
        invariant
            k <= list.len(),
            first_match(bindings_of(list@), s@) == match_from(bindings_of(list@), s@, k as int),
        decreases list.len() - k,
    {
        if list[k].token.len() > 0 && starts_with(s, list[k].token.as_slice()) {
            return Some(k);
        }
        k += 1;
    }
    None
}

/// Writes the template `template` with each token replaced by its value.
pub fn expand_template(list: &Vec<Replacement>, template: &[char]) -> (out: Vec<char>)
    ensures
        out@ == expand(bindings_of(list@), template@),
{
    let n = template.len();
    let mut out: Vec<char> = Vec::new();
    let mut pos: usize = 0;
    assert(template@.skip(0) =~= template@);
    while pos < n
        invariant
            n == template.len(),
            pos <= n,
            expand(bindings_of(list@), template@) == out@ + expand(
                bindings_of(list@),
                template@.skip(pos as int),
            ),
        decreases n - pos,
    {
        let rest = slice_subrange(template, pos, n);
        assert(rest@ =~= template@.skip(pos as int));
        let ghost before = out@;
        proof {
            lemma_match_from(bindings_of(list@), rest@, 0);
        }
        match find_match(list, rest) {
            Some(k) => {
                push_all(&mut out, list[k].value.as_slice());
                let width = list[k].token.len();
                assert(rest@.skip(width as int) =~= template@.skip(pos + width));
                assert(out@ + expand(bindings_of(list@), template@.skip(pos + width)) =~= before
                    + expand(bindings_of(list@), rest@));
                pos += width;
            },
            None => {
                out.push(template[pos]);
                assert(rest@.skip(1) =~= template@.skip(pos + 1));
                assert(out@ + expand(bindings_of(list@), template@.skip(pos + 1)) =~= before
                    + expand(bindings_of(list@), rest@));
                pos += 1;
            },
        }
    }
    assert(template@.skip(n as int) =~= Seq::<char>::empty());
    assert(out@ + Seq::<char>::empty() =~= out@);
    out
}

/// Whether no token of `bindings` stands at any of the first `upto` places
/// of `s`.
pub open spec fn no_token_before(bindings: Seq<Binding>, s: Seq<char>, upto: int) -> bool {
    forall|i: int|
        0 <= i < upto && i < s.len() ==> first_match(bindings, #[trigger] s.skip(i)) is None
}

/// A template in which no token stands comes out as it went in.
pub proof fn lemma_expand_without_tokens(bindings: Seq<Binding>, s: Seq<char>)
    requires
        no_token_before(bindings, s, s.len() as int),
    ensures
        expand(bindings, s) == s,
    decreases s.len(),
{
    if s.len() > 0 {
        assert(s.skip(0) =~= s);
        let t = s.skip(1);
        assert forall|i: int| 0 <= i < t.len() implies first_match(
            bindings,
            #[trigger] t.skip(i),
        ) is None by {
            assert(t.skip(i) =~= s.skip(i + 1));
        }
        lemma_expand_without_tokens(bindings, t);
        assert(seq![s[0]] + t =~= s);
    } else {
        assert(expand(bindings, s) =~= s);
    }
}

/// A token is replaced by its value once, where it stands: what goes before
/// it is kept where no token stands in it, the value is not read again, and
/// the reading goes on behind the token.
pub proof fn lemma_expand_token(
    bindings: Seq<Binding>,
    before: Seq<char>,
    k: int,
    after: Seq<char>,
)
    requires
        0 <= k < bindings.len(),
        first_match(bindings, bindings[k].0 + after) == Some(k),
        no_token_before(bindings, before + bindings[k].0 + after, before.len() as int),
    ensures
        expand(bindings, before + bindings[k].0 + after) == before + bindings[k].1 + expand(
            bindings,
            after,
        ),
    decreases before.len(),
{
    let token = bindings[k].0;
    let s = before + token + after;
    lemma_match_from(bindings, token + after, 0);
    if before.len() == 0 {
        assert(s =~= token + after);
        assert(s.skip(token.len() as int) =~= after);
        assert(expand(bindings, s) =~= before + bindings[k].1 + expand(bindings, after));
    } else {
        assert(s.skip(0) =~= s);
        let shorter = before.skip(1);
        let t = shorter + token + after;
        assert(s.skip(1) =~= t);
        assert forall|i: int| 0 <= i < shorter.len() && i < t.len() implies first_match(
            bindings,
            #[trigger] t.skip(i),
        ) is None by {
            assert(t.skip(i) =~= s.skip(i + 1));
        }
        lemma_expand_token(bindings, shorter, k, after);
        assert(seq![s[0]] + (shorter + bindings[k].1 + expand(bindings, after)) =~= before
            + bindings[k].1 + expand(bindings, after));
    }
}

} // verus!
