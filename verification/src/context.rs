//! Contexts: flat maps from names to values, and the three tiers that every
//! operation's placeholders are resolved from.

use vstd::prelude::*;
use vstd::string::StringExecFns;
use crate::config::Config;

verus! {

/// One entry of a context as the contracts see it: a name and its value.
pub type Pair = (Seq<char>, Seq<char>);

/// Whether no name occurs twice in `es`.
pub open spec fn names_distinct(es: Seq<Pair>) -> bool {
    forall|i: int, j: int| 0 <= i < j < es.len() ==> (#[trigger] es[i]).0 != (#[trigger] es[j]).0
}

/// Whether `es` holds an entry under the name `k`.
pub open spec fn has_name(es: Seq<Pair>, k: Seq<char>) -> bool {
    exists|i: int| 0 <= i < es.len() && (#[trigger] es[i]).0 == k
}

/// An index at which `es` holds the name `k`.
pub open spec fn index_of(es: Seq<Pair>, k: Seq<char>) -> int {
    choose|i: int| 0 <= i < es.len() && (#[trigger] es[i]).0 == k
}

/// The map that the entries `es` stand for.
pub open spec fn map_of(es: Seq<Pair>) -> Map<Seq<char>, Seq<char>> {
    Map::new(|k: Seq<char>| has_name(es, k), |k: Seq<char>| es[index_of(es, k)].1)
}

/// Each entry of a list without repeated names is found again in its map.
pub proof fn lemma_map_of_entry(es: Seq<Pair>, i: int)
    requires
        names_distinct(es),
        0 <= i < es.len(),
    ensures
        map_of(es).dom().contains(es[i].0),
        map_of(es)[es[i].0] == es[i].1,
{
    let k = es[i].0;
    assert(has_name(es, k));
    let j = index_of(es, k);
    assert(0 <= j < es.len() && es[j].0 == k);
    if j < i {
        assert(es[j].0 != es[i].0);
    }
    if i < j {
        assert(es[i].0 != es[j].0);
    }
}

/// Appending an entry under a new name inserts it into the map.
pub proof fn lemma_map_of_push(es: Seq<Pair>, e: Pair)
    requires
        names_distinct(es),
        !has_name(es, e.0),
    ensures
        names_distinct(es.push(e)),
        map_of(es.push(e)) =~= map_of(es).insert(e.0, e.1),
{
    let es2 = es.push(e);
    assert forall|i: int, j: int| 0 <= i < j < es2.len() implies (#[trigger] es2[i]).0 != (
    #[trigger] es2[j]).0 by {
        if j == es.len() {
            assert(es2[i] == es[i]);
            if es2[i].0 == e.0 {
                assert(has_name(es, e.0));
            }
        } else {
            assert(es2[i] == es[i] && es2[j] == es[j]);
        }
    }
    assert forall|k: Seq<char>| has_name(es2, k) <==> (has_name(es, k) || k == e.0) by {
        if has_name(es2, k) {
            let i = index_of(es2, k);
            if i < es.len() {
                assert(es[i] == es2[i]);
            }
        }
        if has_name(es, k) {
            let i = index_of(es, k);
            assert(es2[i] == es[i]);
        }
        if k == e.0 {
            assert(es2[es.len() as int] == e);
        }
    }
    assert forall|k: Seq<char>| has_name(es2, k) implies #[trigger] map_of(es2)[k] == map_of(
        es,
    ).insert(e.0, e.1)[k] by {
        if k == e.0 {
            lemma_map_of_entry(es2, es.len() as int);
        } else {
            let i = index_of(es, k);
            assert(es2[i] == es[i]);
            lemma_map_of_entry(es2, i);
            lemma_map_of_entry(es, i);
        }
    }
}

/// Replacing the value of an entry updates the map under that name.
pub proof fn lemma_map_of_update(es: Seq<Pair>, i: int, v: Seq<char>)
    requires
        names_distinct(es),
        0 <= i < es.len(),
    ensures
        names_distinct(es.update(i, (es[i].0, v))),
        map_of(es.update(i, (es[i].0, v))) =~= map_of(es).insert(es[i].0, v),
{
    let es2 = es.update(i, (es[i].0, v));
    assert forall|a: int, b: int| 0 <= a < b < es2.len() implies (#[trigger] es2[a]).0 != (
    #[trigger] es2[b]).0 by {
        assert(es2[a].0 == es[a].0 && es2[b].0 == es[b].0);
    }
    assert forall|k: Seq<char>| has_name(es2, k) <==> has_name(es, k) by {
        if has_name(es2, k) {
            let j = index_of(es2, k);
            assert(es[j].0 == es2[j].0);
        }
        if has_name(es, k) {
            let j = index_of(es, k);
            assert(es2[j].0 == es[j].0);
        }
    }
    lemma_map_of_entry(es, i);
    assert forall|k: Seq<char>| has_name(es2, k) implies #[trigger] map_of(es2)[k] == map_of(
        es,
    ).insert(es[i].0, v)[k] by {
        let j = index_of(es, k);
        lemma_map_of_entry(es2, j);
        lemma_map_of_entry(es, j);
        if j != i {
            if j < i {
                assert(es[j].0 != es[i].0);
            } else {
                assert(es[i].0 != es[j].0);
            }
        }
    }
}

/// A list without repeated names stands for a map with as many names as
/// the list has entries.
pub proof fn lemma_map_of_len(es: Seq<Pair>)
    requires
        names_distinct(es),
    ensures
        map_of(es).dom().finite(),
        map_of(es).dom().len() == es.len(),
    decreases es.len(),
{
    if es.len() == 0 {
        assert(map_of(es).dom() =~= Set::<Seq<char>>::empty());
    } else {
        let head = es.drop_last();
        let e = es.last();
        assert(names_distinct(head)) by {
            assert forall|a: int, b: int| 0 <= a < b < head.len() implies (#[trigger] head[a]).0
                != (#[trigger] head[b]).0 by {
                assert(head[a] == es[a] && head[b] == es[b]);
            }
        }
        if has_name(head, e.0) {
            let j = index_of(head, e.0);
            assert(head[j] == es[j]);
            assert(es[j].0 != es[es.len() - 1].0);
        }
        assert(es =~= head.push(e));
        lemma_map_of_push(head, e);
        lemma_map_of_len(head);
        assert(map_of(es).dom() =~= map_of(head).dom().insert(e.0));
        assert(!map_of(head).dom().contains(e.0));
    }
}

/// The entries of a list of names and values as plain sequences.
pub open spec fn pairs_of(entries: Seq<(String, String)>) -> Seq<Pair> {
    Seq::new(entries.len(), |i: int| (entries[i].0@, entries[i].1@))
}

/// A context: names with their values, each name at most once, kept in the
/// order in which the names first came in.
#[derive(Debug)]
pub struct StdContext {
    entries: Vec<(String, String)>,
}

impl StdContext {
    /// The entries in order, as plain sequences of characters.
    pub closed spec fn pairs(&self) -> Seq<Pair> {
        pairs_of(self.entries@)
    }

    /// No name occurs twice.
    #[verifier::type_invariant]
    pub open spec fn wf(&self) -> bool {
        names_distinct(self.pairs())
    }


    /// The map from names to values.
    pub open spec fn view(&self) -> Map<Seq<char>, Seq<char>> {
        map_of(self.pairs())
    }

    /// The empty context.
    pub fn new() -> (c: Self)
        ensures
            c.pairs() == Seq::<Pair>::empty(),
            c@ == Map::<Seq<char>, Seq<char>>::empty(),
    {
        let c = StdContext { entries: Vec::new() };
        assert(c.pairs() =~= Seq::<Pair>::empty());
        assert(c@ =~= Map::<Seq<char>, Seq<char>>::empty());
        c
    }

    /// The number of names.
    pub fn len(&self) -> (n: usize)
        ensures
            n == self.pairs().len(),
    {
        self.entries.len()
    }

    /// The name of the entry at index `i`.
    pub fn key_at(&self, i: usize) -> (k: &String)
        requires
            i < self.pairs().len(),
        ensures
            k@ == self.pairs()[i as int].0,
    {
        &self.entries[i].0
    }

    /// The value of the entry at index `i`.
    pub fn value_at(&self, i: usize) -> (v: &String)
        requires
            i < self.pairs().len(),
        ensures
            v@ == self.pairs()[i as int].1,
    {
        &self.entries[i].1
    }

    fn position(&self, key: &str) -> (r: Option<usize>)
        ensures
            match r {
                Some(i) => i < self.pairs().len() && self.pairs()[i as int].0 == key@,
                None => !has_name(self.pairs(), key@),
            },
    {
        let mut i: usize = 0;
        let k = String::from_str(key);
        while i < self.entries.len()
            invariant
                i <= self.entries.len(),
                k@ == key@,
                forall|j: int| 0 <= j < i ==> (#[trigger] self.pairs()[j]).0 != key@,
            decreases self.entries.len() - i,
        {
            if self.entries[i].0 == k {
                return Some(i);
            }
            i += 1;
        }
        None
    }

    /// The value under `key`, if the context has that name.
    pub fn get(&self, key: &str) -> (r: Option<String>)
        ensures
            match r {
                Some(v) => self@.dom().contains(key@) && self@[key@] == v@,
                None => !self@.dom().contains(key@),
            },
    {
        match self.position(key) {
            Some(i) => {
                proof {
                    use_type_invariant(self);
                    lemma_map_of_entry(self.pairs(), i as int);
                }
                Some(self.entries[i].1.clone())
            },
            None => None,
        }
    }

    /// Whether the context has the name `key`.
    pub fn contains_key(&self, key: &str) -> (r: bool)
        ensures
            r == self@.dom().contains(key@),
    {
        self.position(key).is_some()
    }

    /// Sets the value under `key`, replacing an earlier one.
    pub fn insert(&mut self, key: String, value: String)
        ensures
            final(self)@ == old(self)@.insert(key@, value@),
            !old(self)@.dom().contains(key@) ==> final(self).pairs() == old(self).pairs().push(
                (key@, value@),
            ),
            old(self)@.dom().contains(key@) ==> final(self).pairs().len() == old(
                self,
            ).pairs().len(),
    {
        let ghost before = self.pairs();
        proof {
            use_type_invariant(&*self);
        }
        let found = self.position(key.as_str());
        let mut taken = StdContext { entries: Vec::new() };
        assert(taken.pairs() =~= Seq::<Pair>::empty());
        std::mem::swap(self, &mut taken);
        let mut entries = taken.entries;
        match found {
            Some(i) => {
                entries.set(i, (key, value));
                proof {
                    assert(pairs_of(entries@) =~= before.update(
                        i as int,
                        (before[i as int].0, value@),
                    ));
                    lemma_map_of_update(before, i as int, value@);
                }
                *self = StdContext { entries };
            },
            None => {
                entries.push((key, value));
                proof {
                    assert(pairs_of(entries@) =~= before.push((key@, value@)));
                    lemma_map_of_push(before, (key@, value@));
                }
                *self = StdContext { entries };
            },
        }
    }
}

impl StdContext {
    /// Takes over every entry of `other`; where both have a name, the value
    /// of `other` stands afterwards.
    pub fn extend_from(&mut self, other: &StdContext)
        ensures
            final(self)@ == old(self)@.union_prefer_right(other@),
    {
        let mut i: usize = 0;
        proof {
            use_type_invariant(other);
            assert(map_of(other.pairs().take(0)) =~= Map::<Seq<char>, Seq<char>>::empty());
            assert(self@.union_prefer_right(Map::<Seq<char>, Seq<char>>::empty()) =~= self@);
        }
        while i < other.len()
            invariant
                i <= other.pairs().len(),
                names_distinct(other.pairs()),
                self@ == old(self)@.union_prefer_right(map_of(other.pairs().take(i as int))),
            decreases other.pairs().len() - i,
        {
            let ghost head = other.pairs().take(i as int);
            let ghost e = other.pairs()[i as int];
            proof {
                assert(other.pairs().take(i + 1) =~= head.push(e));
                assert(names_distinct(head)) by {
                    assert forall|a: int, b: int| 0 <= a < b < head.len() implies (
                    #[trigger] head[a]).0 != (#[trigger] head[b]).0 by {
                        assert(head[a] == other.pairs()[a] && head[b] == other.pairs()[b]);
                    }
                }
                if has_name(head, e.0) {
                    let j = index_of(head, e.0);
                    assert(head[j] == other.pairs()[j]);
                    assert(other.pairs()[j].0 != other.pairs()[i as int].0);
                }
                lemma_map_of_push(head, e);
            }
            let ghost prev = self@;
            self.insert(other.key_at(i).clone(), other.value_at(i).clone());
            assert(self@ =~= old(self)@.union_prefer_right(map_of(head).insert(e.0, e.1)));
            i += 1;
        }
        assert(other.pairs().take(other.pairs().len() as int) =~= other.pairs());
    }

    /// Whether two contexts hold the same entries in the same order.
    pub fn same_pairs(&self, other: &StdContext) -> (r: bool)
        ensures
            r == (self.pairs() == other.pairs()),
    {
        if self.entries.len() != other.entries.len() {
            assert(self.pairs().len() != other.pairs().len());
            return false;
        }
        let mut i: usize = 0;
        while i < self.entries.len()
            invariant
                i <= self.entries@.len(),
                self.entries@.len() == other.entries@.len(),
                forall|j: int| 0 <= j < i ==> (#[trigger] self.pairs()[j]) == other.pairs()[j],
            decreases self.entries@.len() - i,
        {
            if !(self.entries[i].0 == other.entries[i].0 && self.entries[i].1
                == other.entries[i].1) {
                assert(self.pairs()[i as int] != other.pairs()[i as int]);
                return false;
            }
            i += 1;
        }
        assert(self.pairs() =~= other.pairs());
        true
    }

    /// The entries as a list of names and values.
    pub fn to_pairs(&self) -> (list: Vec<(String, String)>)
        ensures
            pairs_of(list@) == self.pairs(),
            names_distinct(pairs_of(list@)),
    {
        let mut list: Vec<(String, String)> = Vec::new();
        let mut i: usize = 0;
        proof {
            use_type_invariant(self);
        }
        while i < self.entries.len()
            invariant
                i <= self.entries@.len(),
                list@.len() == i,
                forall|j: int|
                    0 <= j < i ==> (#[trigger] list@[j]).0@ == self.entries@[j].0@ && list@[j].1@
                        == self.entries@[j].1@,
            decreases self.entries@.len() - i,
        {
            list.push((self.entries[i].0.clone(), self.entries[i].1.clone()));
            i += 1;
        }
        assert(pairs_of(list@) =~= self.pairs());
        list
    }

    /// A context with the same entries in the same order.
    pub fn duplicate(&self) -> (c: StdContext)
        ensures
            c.pairs() == self.pairs(),
            c@ == self@,
    {
        let mut c = StdContext::new();
        let mut i: usize = 0;
        proof {
            use_type_invariant(self);
        }
        while i < self.len()
            invariant
                i <= self.pairs().len(),
                names_distinct(self.pairs()),
                c.pairs() == self.pairs().take(i as int),
            decreases self.pairs().len() - i,
        {
            proof {
                let head = self.pairs().take(i as int);
                let e = self.pairs()[i as int];
                if has_name(head, e.0) {
                    let j = index_of(head, e.0);
                    assert(head[j] == self.pairs()[j]);
                    assert(self.pairs()[j].0 != self.pairs()[i as int].0);
                }
                assert(self.pairs().take(i + 1) =~= head.push(e));
            }
            c.insert(self.key_at(i).clone(), self.value_at(i).clone());
            i += 1;
        }
        assert(self.pairs().take(self.pairs().len() as int) =~= self.pairs());
        c
    }
}

/// The three tiers that an operation's context is merged from.
#[derive(Debug)]
pub struct ContextMap {
    /// The values given on the command line.
    pub cli_positional: StdContext,
    /// The `context` block of the declaration, shared by all its operations.
    pub config_global: StdContext,
    /// The `context` block of the one operation.
    pub command_local: StdContext,
}

/// The merge of three tiers: a name has the value of the most specific tier
/// that holds it, the operation's own before the declaration's before the
/// command line's.
pub open spec fn merged_tiers(
    cli: Map<Seq<char>, Seq<char>>,
    global: Map<Seq<char>, Seq<char>>,
    local: Map<Seq<char>, Seq<char>>,
) -> Map<Seq<char>, Seq<char>> {
    cli.union_prefer_right(global).union_prefer_right(local)
}

/// The value that the merge holds under a name is the value of the most
/// specific tier that has the name, whatever the other tiers hold under it;
/// and the merge has exactly the names that some tier has.
pub proof fn lemma_merge_precedence(
    cli: Map<Seq<char>, Seq<char>>,
    global: Map<Seq<char>, Seq<char>>,
    local: Map<Seq<char>, Seq<char>>,
    k: Seq<char>,
)
    ensures
        merged_tiers(cli, global, local).dom().contains(k) <==> (cli.dom().contains(k)
            || global.dom().contains(k) || local.dom().contains(k)),
        local.dom().contains(k) ==> merged_tiers(cli, global, local)[k] == local[k],
        !local.dom().contains(k) && global.dom().contains(k) ==> merged_tiers(
            cli,
            global,
            local,
        )[k] == global[k],
        !local.dom().contains(k) && !global.dom().contains(k) && cli.dom().contains(k)
            ==> merged_tiers(cli, global, local)[k] == cli[k],
{
}

/// The order in which equal tiers are put together does not matter: merging
/// the command line's tier with the declaration's first, or the
/// declaration's with the operation's first, gives the same context.
pub proof fn lemma_merge_associative(
    cli: Map<Seq<char>, Seq<char>>,
    global: Map<Seq<char>, Seq<char>>,
    local: Map<Seq<char>, Seq<char>>,
)
    ensures
        cli.union_prefer_right(global).union_prefer_right(local) == cli.union_prefer_right(
            global.union_prefer_right(local),
        ),
{
    assert(cli.union_prefer_right(global).union_prefer_right(local) =~= cli.union_prefer_right(
        global.union_prefer_right(local),
    ));
}

impl ContextMap {
    /// Merges the three tiers into one context.
    pub fn do_merge(&self) -> (merged: StdContext)
        ensures
            merged@ == merged_tiers(
                self.cli_positional@,
                self.config_global@,
                self.command_local@,
            ),
    {
        let mut merged = StdContext::new();
        merged.extend_from(&self.cli_positional);
        assert(merged@ =~= self.cli_positional@);
        merged.extend_from(&self.config_global);
        merged.extend_from(&self.command_local);
        merged
    }
}

/// The context that the command line gives: the language, the module and
/// the project.
pub open spec fn cli_tier(config: Config) -> Map<Seq<char>, Seq<char>> {
    Map::<Seq<char>, Seq<char>>::empty().insert("language"@, config.language@).insert(
        "module"@,
        config.module@,
    ).insert("project"@, config.project@)
}

/// Builds the command line's tier of the context.
pub fn cli_config_to_map(config: &Config) -> (map: StdContext)
    ensures
        map@ == cli_tier(*config),
{
    let mut map = StdContext::new();
    map.insert(String::from_str("language"), config.language.clone());
    map.insert(String::from_str("module"), config.module.clone());
    map.insert(String::from_str("project"), config.project.clone());
    map
}

} // verus!
