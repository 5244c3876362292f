//! The context of one operation: the three tiers merged, and every value
//! rendered against the whole of the merge.

use vstd::prelude::*;
use vstd::string::StringExecFns;
use crate::context::{
    has_name, index_of, lemma_map_of_entry, lemma_map_of_len, map_of, merged_tiers,
    names_distinct, ContextMap, Pair, StdContext,
};
use crate::errors::{BrixError, BrixErrorKind};
use crate::processor::{has_marker, render_failure, rendered, ProcessorCore};
use crate::text::join2;

verus! {

/// Whether every value of `m` renders against `m`.
pub open spec fn expands(m: Map<Seq<char>, Seq<char>>) -> bool {
    forall|k: Seq<char>| m.dom().contains(k) ==> (#[trigger] rendered(m[k], m)) is Some
}

/// `m` with every value rendered once against `m`.
pub open spec fn expanded(m: Map<Seq<char>, Seq<char>>) -> Map<Seq<char>, Seq<char>> {
    Map::new(|k: Seq<char>| m.dom().contains(k), |k: Seq<char>| rendered(m[k], m)->0)
}

/// Whether no value of `m` holds the marker with which a tag begins.
pub open spec fn settled_map(m: Map<Seq<char>, Seq<char>>) -> bool {
    forall|k: Seq<char>| m.dom().contains(k) ==> !has_marker(#[trigger] m[k])
}

/// What stands before the message of an error about the value or the field
/// `name`.
pub open spec fn tag_of(name: Seq<char>) -> Seq<char> {
    "'"@ + name + "': "@
}

/// Whether `message` begins with the tag of `name`.
pub open spec fn tagged(name: Seq<char>, message: Seq<char>) -> bool {
    tag_of(name).is_prefix_of(message)
}

/// Whether the value of `m` under `k` does not render against `m`, and
/// `message` is the message of that failure after the tag of `k`.
pub open spec fn blames(m: Map<Seq<char>, Seq<char>>, k: Seq<char>, message: Seq<char>) -> bool {
    m.dom().contains(k) && rendered(m[k], m) is None && message == tag_of(k) + render_failure(
        m[k],
        m,
    )
}

/// The message for a context whose values do not come to rest.
pub open spec fn cycle_message() -> Seq<char> {
    "the values of the context refer to each other without end"@
}

/// The context that `m` comes to rest in when it is expanded again and
/// again, at most `fuel` times after the first: the first of these contexts
/// that a further pass leaves as it is. `None` where a value does not
/// render, or where the context has not come to rest by then.
pub open spec fn expansion(m: Map<Seq<char>, Seq<char>>, fuel: nat) -> Option<
    Map<Seq<char>, Seq<char>>,
>
    decreases fuel,
{
    if !expands(m) {
        None
    } else if expanded(m) == m {
        Some(m)
    } else if fuel == 0 {
        None
    } else {
        expansion(expanded(m), (fuel - 1) as nat)
    }
}

/// Whether `message` is the message with which the expansion of `m` fails:
/// that of the first value that does not render, in the pass in which it
/// does not, or that of a context that does not come to rest.
pub open spec fn expansion_fails_with(
    m: Map<Seq<char>, Seq<char>>,
    fuel: nat,
    message: Seq<char>,
) -> bool
    decreases fuel,
{
    if !expands(m) {
        exists|k: Seq<char>| #[trigger] blames(m, k, message)
    } else if expanded(m) == m {
        false
    } else if fuel == 0 {
        message == cycle_message()
    } else {
        expansion_fails_with(expanded(m), (fuel - 1) as nat, message)
    }
}

/// The fully expanded form of `m`: what it comes to rest in within as many
/// further passes as it has names.
pub open spec fn resolved(m: Map<Seq<char>, Seq<char>>) -> Option<Map<Seq<char>, Seq<char>>> {
    expansion(m, m.dom().len())
}

/// Whether `message` is the message with which the full expansion of `m`
/// fails.
pub open spec fn resolution_fails_with(m: Map<Seq<char>, Seq<char>>, message: Seq<char>) -> bool {
    expansion_fails_with(m, m.dom().len(), message)
}

/// A context that came to rest is expanded: every value renders, and a
/// further pass changes nothing.
pub proof fn lemma_expansion_is_fixed(m: Map<Seq<char>, Seq<char>>, fuel: nat)
    requires
        expansion(m, fuel) is Some,
    ensures
        expands(expansion(m, fuel)->0),
        expanded(expansion(m, fuel)->0) == expansion(m, fuel)->0,
    decreases fuel,
{
    if expanded(m) == m {
    } else {
        lemma_expansion_is_fixed(expanded(m), (fuel - 1) as nat);
    }
}

/// Expanding is idempotent: where the expansion of `m` succeeds, expanding
/// its result again, with whatever number of passes, gives that result.
pub proof fn lemma_expansion_idempotent(m: Map<Seq<char>, Seq<char>>, fuel: nat, again: nat)
    requires
        expansion(m, fuel) is Some,
    ensures
        expansion(expansion(m, fuel)->0, again) == expansion(m, fuel),
{
    lemma_expansion_is_fixed(m, fuel);
}

/// Resolving is idempotent: the fully expanded form of a context is its own
/// fully expanded form.
pub proof fn lemma_resolved_idempotent(m: Map<Seq<char>, Seq<char>>)
    requires
        resolved(m) is Some,
    ensures
        resolved(resolved(m)->0) == resolved(m),
{
    lemma_expansion_idempotent(m, m.dom().len(), resolved(m)->0.dom().len());
}

/// The first index at which a value of `es` does not render against `m`.
pub open spec fn first_failure(es: Seq<Pair>, m: Map<Seq<char>, Seq<char>>, i: int) -> bool {
    &&& 0 <= i < es.len()
    &&& rendered(es[i].1, m) is None
    &&& forall|j: int| 0 <= j < i ==> (#[trigger] rendered(es[j].1, m)) is Some
}

/// Puts the tag of `name` before the message of `err`.
pub fn tag_error(name: &str, err: BrixError) -> (e: BrixError)
    ensures
        e.kind == err.kind,
        e.message@ == tag_of(name@) + err.message@,
        tagged(name@, e.message@),
{
    let message = join2("'", name).concat("': ").concat(err.message.as_str());
    proof {
        let tag = tag_of(name@);
        assert(message@ == tag + err.message@);
        assert(message@.subrange(0, tag.len() as int) =~= tag);
    }
    BrixError { kind: err.kind, message }
}

/// Where two lists hold the same names in the same order, without
/// repetition, and stand for the same map, they hold the same values.
proof fn lemma_same_map_same_pairs(a: Seq<Pair>, b: Seq<Pair>)
    requires
        names_distinct(a),
        a.len() == b.len(),
        forall|j: int| 0 <= j < a.len() ==> (#[trigger] b[j]).0 == a[j].0,
        map_of(a) == map_of(b),
    ensures
        a == b,
{
    lemma_same_names(a, b);
    assert forall|j: int| 0 <= j < a.len() implies a[j] == b[j] by {
        lemma_map_of_entry(a, j);
        assert(b[j].0 == a[j].0);
    }
    assert(a =~= b);
}

proof fn lemma_same_names(es: Seq<Pair>, out: Seq<Pair>)
    requires
        names_distinct(es),
        out.len() == es.len(),
        forall|j: int| 0 <= j < es.len() ==> (#[trigger] out[j]).0 == es[j].0,
    ensures
        names_distinct(out),
        forall|k: Seq<char>| has_name(out, k) <==> has_name(es, k),
        forall|j: int| 0 <= j < es.len() ==> map_of(out)[#[trigger] es[j].0] == out[j].1,
{
    assert forall|a: int, b: int| 0 <= a < b < out.len() implies (#[trigger] out[a]).0 != (
    #[trigger] out[b]).0 by {
        assert(es[a].0 != es[b].0);
    }
    assert forall|k: Seq<char>| has_name(out, k) <==> has_name(es, k) by {
        if has_name(out, k) {
            let j = index_of(out, k);
            assert(es[j].0 == k);
        }
        if has_name(es, k) {
            let j = index_of(es, k);
            assert(out[j].0 == k);
        }
    }
    assert forall|j: int| 0 <= j < es.len() implies map_of(out)[#[trigger] es[j].0]
        == out[j].1 by {
        lemma_map_of_entry(out, j);
    }
}

impl StdContext {
    /// Renders every value once against the whole context. Names and their
    /// order stay. Where a value does not render, the error is that of the
    /// first such value, after its tag. A context in which no value holds a
    /// marker comes back as it is.
    pub fn expand_once(&self, processor: &ProcessorCore) -> (r: Result<StdContext, BrixError>)
        ensures
            match r {
                Ok(c) => expands(self@) && c@ == expanded(self@) && c.pairs().len()
                    == self.pairs().len() && forall|j: int|
                    0 <= j < c.pairs().len() ==> (#[trigger] c.pairs()[j]).0 == self.pairs()[j].0,
                Err(e) => !expands(self@) && e.kind == Some(BrixErrorKind::Template) && exists|
                    i: int,
                |
                    first_failure(self.pairs(), self@, i) && #[trigger] blames(
                        self@,
                        self.pairs()[i].0,
                        e.message@,
                    ),
            },
            settled_map(self@) ==> r is Ok && r->Ok_0@ == self@,
    {
        let ghost es = self.pairs();
        let mut out = StdContext::new();
        let mut i: usize = 0;
        proof {
            use_type_invariant(self);
        }
        while i < self.len()
            invariant
                i <= es.len(),
                es == self.pairs(),
                names_distinct(es),
                out.pairs().len() == i,
                forall|j: int|
                    0 <= j < i ==> (#[trigger] out.pairs()[j]).0 == es[j].0 && rendered(
                        es[j].1,
                        self@,
                    ) == Some(out.pairs()[j].1) && (!has_marker(es[j].1) ==> out.pairs()[j].1
                        == es[j].1),
            decreases es.len() - i,
        {
            let key = self.key_at(i);
            let value = self.value_at(i);
            proof {
                lemma_map_of_entry(es, i as int);
            }
            match processor.process(value.as_str(), self) {
                Ok(text) => {
                    proof {
                        if has_name(out.pairs(), key@) {
                            let j = index_of(out.pairs(), key@);
                            assert(es[j].0 != es[i as int].0);
                        }
                    }
                    let ghost before = out.pairs();
                    out.insert(key.clone(), text);
                    assert(out.pairs() == before.push((key@, text@)));
                    assert forall|j: int| 0 <= j < i + 1 implies (#[trigger] out.pairs()[j]).0
                        == es[j].0 && rendered(es[j].1, self@) == Some(out.pairs()[j].1) && (
                    !has_marker(es[j].1) ==> out.pairs()[j].1 == es[j].1) by {
                        if j < i {
                            assert(out.pairs()[j] == before[j]);
                        }
                    }
                },
                Err(err) => {
                    let tagged_error = tag_error(key.as_str(), err);
                    proof {
                        assert forall|j: int| 0 <= j < i implies (#[trigger] rendered(
                            es[j].1,
                            self@,
                        )) is Some by {
                            assert(out.pairs()[j].0 == es[j].0);
                        }
                        assert(first_failure(es, self@, i as int));
                        assert(self@.dom().contains(es[i as int].0));
                        assert(blames(self@, es[i as int].0, tagged_error.message@));
                    }
                    return Err(tagged_error);
                },
            }
            i += 1;
        }
        proof {
            lemma_same_names(es, out.pairs());
            assert forall|k: Seq<char>| self@.dom().contains(k) implies (#[trigger] rendered(
                self@[k],
                self@,
            )) is Some && out@[k] == rendered(self@[k], self@)->0 by {
                let j = index_of(es, k);
                lemma_map_of_entry(es, j);
            }
            assert(out@ =~= expanded(self@));
            if settled_map(self@) {
                assert forall|k: Seq<char>| self@.dom().contains(k) implies out@[k]
                    == self@[k] by {
                    assert(!has_marker(self@[k]));
                    let j = index_of(es, k);
                    lemma_map_of_entry(es, j);
                    assert(out.pairs()[j].0 == es[j].0);
                }
                assert(out@ =~= self@);
            }
        }
        Ok(out)
    }
}

impl StdContext {
    /// Expands the context until it comes to rest: every value is rendered
    /// against the whole context, again and again, until a pass changes
    /// nothing. What comes back is fully expanded, so that expanding it
    /// again gives it back. The error is that of the first value that does
    /// not render; or, where as many further passes as there are names have
    /// not brought the context to rest, that its values refer to each other
    /// without end.
    pub fn expand(&self, processor: &ProcessorCore) -> (r: Result<StdContext, BrixError>)
        ensures
            match r {
                Ok(c) => resolved(self@) == Some(c@),
                Err(e) => resolved(self@) is None && e.kind == Some(BrixErrorKind::Template)
                    && resolution_fails_with(self@, e.message@),
            },
            r is Ok ==> expands(r->Ok_0@) && expanded(r->Ok_0@) == r->Ok_0@,
            settled_map(self@) ==> r is Ok && r->Ok_0@ == self@,
    {
        let mut current = self.duplicate();
        let mut fuel: usize = self.len();
        proof {
            use_type_invariant(self);
            lemma_map_of_len(self.pairs());
        }
        loop
            invariant
                resolved(self@) == expansion(current@, fuel as nat),
                forall|message: Seq<char>|
                    resolution_fails_with(self@, message) == #[trigger] expansion_fails_with(
                        current@,
                        fuel as nat,
                        message,
                    ),
                settled_map(self@) ==> current@ == self@,
            decreases fuel,
        {
            let next = match current.expand_once(processor) {
                Ok(next) => next,
                Err(e) => {
                    assert(expansion_fails_with(current@, fuel as nat, e.message@));
                    return Err(e);
                },
            };
            if next.same_pairs(&current) {
                assert(next@ == current@);
                return Ok(next);
            }
            proof {
                use_type_invariant(&current);
                if next@ == current@ {
                    lemma_same_map_same_pairs(current.pairs(), next.pairs());
                }
                assert(expanded(current@) != current@);
            }
            if fuel == 0 {
                let e = BrixError {
                    kind: Some(BrixErrorKind::Template),
                    message: String::from_str(
                        "the values of the context refer to each other without end",
                    ),
                };
                assert(expansion_fails_with(current@, fuel as nat, e.message@));
                return Err(e);
            }
            proof {
                assert forall|message: Seq<char>|
                    expansion_fails_with(current@, fuel as nat, message)
                        == #[trigger] expansion_fails_with(
                        next@,
                        (fuel - 1) as nat,
                        message,
                    ) by {}
            }
            fuel -= 1;
            current = next;
        }
    }
}

/// The context of an operation: the merge of the three tiers, fully
/// expanded.
pub fn resolve(tiers: &ContextMap, processor: &ProcessorCore) -> (r: Result<StdContext, BrixError>)
    ensures
        match r {
            Ok(c) => resolved(
                merged_tiers(tiers.cli_positional@, tiers.config_global@, tiers.command_local@),
            ) == Some(c@),
            Err(e) => resolved(
                merged_tiers(tiers.cli_positional@, tiers.config_global@, tiers.command_local@),
            ) is None && e.kind == Some(BrixErrorKind::Template) && resolution_fails_with(
                merged_tiers(tiers.cli_positional@, tiers.config_global@, tiers.command_local@),
                e.message@,
            ),
        },
{
    let merged = tiers.do_merge();
    merged.expand(processor)
}

} // verus!
