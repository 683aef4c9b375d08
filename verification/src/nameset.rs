//! The bounded name-set algebra: an ordered collection of distinct, non-empty
//! requirement names with exact-match construct, remove, emptiness and subset
//! operations.  It is the requirement tracker under the binding context and
//! the pipe-compatibility check.

use vstd::prelude::*;
use crate::errors::DeclarationError;

verus! {

/// Upper bound on the number of distinct names one requirement set may hold.
/// Exceeding it is a declaration-time error.
pub const NAME_CAPACITY: usize = 32;

/// No two entries of `s` are the same name.
pub open spec fn distinct(s: Seq<Seq<char>>) -> bool {
    forall|i: int, j: int| 0 <= i < j < s.len() ==> s[i] != s[j]
}

/// Adding one name to the model: a name already present stays in its slot, a
/// new name is appended at the next free position.
pub open spec fn spec_insert(s: Seq<Seq<char>>, name: Seq<char>) -> Seq<Seq<char>> {
    if s.contains(name) {
        s
    } else {
        s.push(name)
    }
}

/// The model of constructing a set from a declaration-ordered list of names:
/// each name is inserted in turn, so first occurrences keep declaration order
/// and later duplicates are ignored.
pub open spec fn spec_construct(names: Seq<Seq<char>>) -> Seq<Seq<char>>
    decreases names.len(),
{
    if names.len() == 0 {
        Seq::empty()
    } else {
        spec_insert(spec_construct(names.drop_last()), names.last())
    }
}

/// The model of removing a name: every slot holding exactly that name is
/// cleared, all other slots keep their order.
pub open spec fn spec_remove(s: Seq<Seq<char>>, name: Seq<char>) -> Seq<Seq<char>>
    decreases s.len(),
{
    if s.len() == 0 {
        Seq::empty()
    } else if s.last() == name {
        spec_remove(s.drop_last(), name)
    } else {
        spec_remove(s.drop_last(), name).push(s.last())
    }
}

/// Every name of `a` appears somewhere in `b`.
pub open spec fn spec_subset(a: Seq<Seq<char>>, b: Seq<Seq<char>>) -> bool {
    forall|i: int| 0 <= i < a.len() ==> b.contains(#[trigger] a[i])
}

proof fn lemma_insert_push(s: Seq<Seq<char>>, x: Seq<char>)
    ensures
        spec_construct(s.push(x)) == spec_insert(spec_construct(s), x),
{
    assert(s.push(x).drop_last() =~= s);
    assert(s.push(x).last() == x);
}

proof fn lemma_remove_push(s: Seq<Seq<char>>, x: Seq<char>, name: Seq<char>)
    ensures
        spec_remove(s.push(x), name) == if x == name {
            spec_remove(s, name)
        } else {
            spec_remove(s, name).push(x)
        },
{
    assert(s.push(x).drop_last() =~= s);
    assert(s.push(x).last() == x);
}

/// The removal model keeps only names other than the removed one, and only
/// names that were already present.
proof fn lemma_remove_props(s: Seq<Seq<char>>, name: Seq<char>)
    ensures
        spec_remove(s, name).len() <= s.len(),
        !spec_remove(s, name).contains(name),
        forall|x: Seq<char>|
            #[trigger] spec_remove(s, name).contains(x) <==> (s.contains(x) && x != name),
    decreases s.len(),
{
    if s.len() == 0 {
        assert forall|x: Seq<char>|
            #[trigger] spec_remove(s, name).contains(x) <==> (s.contains(x) && x != name) by {
            assert(!spec_remove(s, name).contains(x));
            assert(!s.contains(x));
        }
    } else {
        let prefix = s.drop_last();
        let l = s.last();
        lemma_remove_props(prefix, name);
        assert(s =~= prefix.push(l));
        assert forall|x: Seq<char>|
            #[trigger] spec_remove(s, name).contains(x) <==> (s.contains(x) && x != name) by {
            vstd::seq_lib::lemma_seq_contains_after_push(prefix, l, x);
            if l != name {
                vstd::seq_lib::lemma_seq_contains_after_push(
                    spec_remove(prefix, name),
                    l,
                    x,
                );
            }
        }
        if spec_remove(s, name).contains(name) {
            vstd::seq_lib::lemma_seq_contains_after_push(
                spec_remove(prefix, name),
                l,
                name,
            );
        }
    }
}

/// Removal keeps entries distinct.
proof fn lemma_remove_distinct(s: Seq<Seq<char>>, name: Seq<char>)
    requires
        distinct(s),
    ensures
        distinct(spec_remove(s, name)),
    decreases s.len(),
{
    if s.len() > 0 {
        let prefix = s.drop_last();
        let l = s.last();
        assert(distinct(prefix)) by {
            assert forall|i: int, j: int|
                0 <= i < j < prefix.len() implies prefix[i] != prefix[j] by {
                assert(prefix[i] == s[i]);
                assert(prefix[j] == s[j]);
            }
        }
        lemma_remove_distinct(prefix, name);
        lemma_remove_props(prefix, name);
        if l != name {
            let r = spec_remove(prefix, name).push(l);
            assert forall|i: int, j: int| 0 <= i < j < r.len() implies r[i] != r[j] by {
                if j == r.len() - 1 {
                    // the pushed last entry never occurred in the prefix
                    if r[i] == l {
                        assert(spec_remove(prefix, name).contains(r[i])) by {
                            assert(spec_remove(prefix, name)[i] == r[i]);
                        }
                        let k = choose|k: int|
                            0 <= k < prefix.len() && prefix[k] == l;
                        assert(s[k] == s[s.len() - 1]);
                    }
                }
            }
        }
    }
}

/// Growing the input of the construction model never shrinks its result.
proof fn lemma_construct_take_len(names: Seq<Seq<char>>, k: int)
    requires
        0 <= k <= names.len(),
    ensures
        spec_construct(names.take(k)).len() <= spec_construct(names).len(),
    decreases names.len() - k,
{
    if k == names.len() {
        assert(names.take(k) =~= names);
    } else {
        assert(names.take(k + 1) =~= names.take(k).push(names[k]));
        lemma_insert_push(names.take(k), names[k]);
        lemma_construct_take_len(names, k + 1);
    }
}

/// A bounded, ordered set of distinct non-empty requirement names.
#[derive(Debug)]
pub struct NameSet {
    entries: Vec<String>,
}

impl View for NameSet {
    type V = Seq<Seq<char>>;

    closed spec fn view(&self) -> Seq<Seq<char>> {
        self.entries.deep_view()
    }
}

impl NameSet {
    /// The set's invariant: every name non-empty, no duplicates, and at most
    /// `NAME_CAPACITY` entries.
    pub open spec fn wf(&self) -> bool {
        &&& forall|i: int| 0 <= i < self@.len() ==> (#[trigger] self@[i]).len() > 0
        &&& distinct(self@)
        &&& self@.len() <= NAME_CAPACITY
    }

    /// How many names the set holds.
    pub fn len(&self) -> (r: usize)
        ensures
            r == self@.len(),
    {
        self.entries.len()
    }

    /// Exact-match membership test.
    pub fn contains(&self, name: &str) -> (r: bool)
        ensures
            r == self@.contains(name@),
    {
        let mut i: usize = 0;
        while i < self.entries.len()
            invariant
                i <= self.entries.len(),
                forall|k: int| 0 <= k < i ==> self@[k] != name@,
            decreases self.entries.len() - i,
        {
            if string_compare(self.entries[i].as_str(), name) {
                proof {
                    assert(self@[i as int] == name@);
                }
                return true;
            }
            i += 1;
        }
        false
    }

    /// Build a set from a declaration-ordered list of names, keeping the
    /// first occurrence of each.  Fails when more than `NAME_CAPACITY`
    /// distinct names are requested.
    pub fn construct(names: &Vec<String>) -> (r: Result<NameSet, DeclarationError>)
        requires
            forall|i: int| 0 <= i < names@.len() ==> (#[trigger] names.deep_view()[i]).len() > 0,
        ensures
            match r {
                Ok(set) => {
                    &&& set.wf()
                    &&& set@ == spec_construct(names.deep_view())
                },
                Err(e) => {
                    &&& spec_construct(names.deep_view()).len() > NAME_CAPACITY
                    &&& match e {
                        DeclarationError::TooManyNames { name } => names.deep_view().contains(
                            name@,
                        ),
                        _ => false,
                    }
                },
            },
    {
        let ghost dv = names.deep_view();
        let mut set = NameSet { entries: Vec::new() };
        let mut i: usize = 0;
        proof {
            assert(dv.take(0) =~= Seq::empty());
            assert(set@ =~= Seq::empty());
        }
        while i < names.len()
            invariant
                i <= names@.len(),
                dv == names.deep_view(),
                forall|k: int| 0 <= k < names@.len() ==> (#[trigger] dv[k]).len() > 0,
                set.wf(),
                set@ == spec_construct(dv.take(i as int)),
            decreases names@.len() - i,
        {
            let name = &names[i];
            proof {
                assert(dv.take(i + 1) =~= dv.take(i as int).push(dv[i as int]));
                lemma_insert_push(dv.take(i as int), dv[i as int]);
                assert(name@ == dv[i as int]);
            }
            if !set.contains(name.as_str()) {
                if set.entries.len() == NAME_CAPACITY {
                    proof {
                        // inserting a 33rd distinct name makes the model longer
                        // than the capacity, on this prefix and so on the whole
                        lemma_construct_take_len(dv, i + 1);
                        assert(dv.contains(dv[i as int]));
                    }
                    return Err(DeclarationError::TooManyNames { name: name.clone() });
                }
                let ghost old_set = set@;
                set.entries.push(name.clone());
                proof {
                    assert(set@ =~= old_set.push(name@));
                }
            }
            i += 1;
        }
        proof {
            assert(dv.take(names@.len() as int) =~= dv);
        }
        Ok(set)
    }

    /// Remove a name.  Returns the set with that name's slot cleared and a
    /// flag telling whether it was present; an absent name leaves the set
    /// unchanged and reports `false`, which callers treat as fatal.
    pub fn remove(&self, name: &str) -> (r: (NameSet, bool))
        requires
            self.wf(),
        ensures
            r.0@ == spec_remove(self@, name@),
            r.1 == self@.contains(name@),
            r.0.wf(),
            !r.0@.contains(name@),
    {
        let mut out: Vec<String> = Vec::new();
        let mut found = false;
        let mut i: usize = 0;
        proof {
            assert(self@.take(0) =~= Seq::empty());
            assert(out.deep_view() =~= Seq::empty());
        }
        while i < self.entries.len()
            invariant
                i <= self.entries.len(),
                self.wf(),
                out.deep_view() == spec_remove(self@.take(i as int), name@),
                found == self@.take(i as int).contains(name@),
            decreases self.entries.len() - i,
        {
            let ghost prefix = self@.take(i as int);
            proof {
                assert(self@.take(i + 1) =~= prefix.push(self@[i as int]));
                lemma_remove_push(prefix, self@[i as int], name@);
                vstd::seq_lib::lemma_seq_contains_after_push(prefix, self@[i as int], name@);
            }
            let entry = &self.entries[i];
            if string_compare(entry.as_str(), name) {
                found = true;
            } else {
                let ghost old_out = out.deep_view();
                out.push(entry.clone());
                proof {
                    assert(out.deep_view() =~= old_out.push(entry@));
                }
            }
            i += 1;
        }
        proof {
            assert(self@.take(self.entries.len() as int) =~= self@);
            lemma_remove_props(self@, name@);
            lemma_remove_distinct(self@, name@);
            let r = spec_remove(self@, name@);
            assert forall|k: int| 0 <= k < r.len() implies (#[trigger] r[k]).len() > 0 by {
                assert(r.contains(r[k]));
                let m = choose|m: int| 0 <= m < self@.len() && self@[m] == r[k];
                assert(self@[m].len() > 0);
            }
        }
        (NameSet { entries: out }, found)
    }

    /// The name at slot `i`, in declaration order.
    pub fn get(&self, i: usize) -> (r: &String)
        requires
            i < self@.len(),
        ensures
            r@ == self@[i as int],
    {
        &self.entries[i]
    }

    /// Hand the names back as a plain vector, in slot order.
    pub fn into_names(self) -> (r: Vec<String>)
        ensures
            r.deep_view() == self@,
    {
        self.entries
    }

    /// True iff no requirement remains.
    pub fn is_empty(&self) -> (r: bool)
        ensures
            r == (self@.len() == 0),
    {
        self.entries.len() == 0
    }

    /// True iff every name of `self` appears in `other`.
    pub fn is_subset(&self, other: &NameSet) -> (r: bool)
        ensures
            r == spec_subset(self@, other@),
    {
        let mut i: usize = 0;
        while i < self.entries.len()
            invariant
                i <= self.entries.len(),
                forall|k: int| 0 <= k < i ==> other@.contains(#[trigger] self@[k]),
            decreases self.entries.len() - i,
        {
            let entry = &self.entries[i];
            if !other.contains(entry.as_str()) {
                proof {
                    assert(!other@.contains(self@[i as int]));
                }
                return false;
            }
            i += 1;
        }
        true
    }
}

/// Exact, length-checked, case-sensitive string equality.
pub fn string_compare(string1: &str, string2: &str) -> (r: bool)
    ensures
        r == (string1@ == string2@),
{
    let s1 = string1.to_owned();
    let s2 = string2.to_owned();
    s1 == s2
}

/// One step of the binding-context protocol over a raw requirement set:
/// clear the slot holding `bind_name` and report whether it was found.
pub fn new_bind_scope(bind_context: &NameSet, bind_name: &str) -> (r: (NameSet, bool))
    requires
        bind_context.wf(),
    ensures
        r.0@ == spec_remove(bind_context@, bind_name@),
        r.1 == bind_context@.contains(bind_name@),
        r.0.wf(),
{
    bind_context.remove(bind_name)
}

/// A requirement set permits execution exactly when it has been emptied.
pub fn ready_to_run(bind_context: &NameSet) -> (r: bool)
    ensures
        r == (bind_context@.len() == 0),
{
    bind_context.is_empty()
}

/// Whether a parameter-name set mentions `name` exactly.
pub fn params_contain_string(list_of_names: &NameSet, name: &str) -> (r: bool)
    ensures
        r == list_of_names@.contains(name@),
{
    list_of_names.contains(name)
}

/// Pipe compatibility as a plain test: every upstream output name must be
/// consumed by (declared among) the downstream input names.
pub fn can_pipe(s_out: &NameSet, s_in: &NameSet) -> (r: bool)
    ensures
        r == spec_subset(s_out@, s_in@),
{
    s_out.is_subset(s_in)
}

/// Law: constructing a set from distinct names copies them slot for slot, so
/// the set's size equals the number of names and the set is empty exactly
/// when no name was given.
pub proof fn lemma_construct_distinct(names: Seq<Seq<char>>)
    requires
        distinct(names),
    ensures
        spec_construct(names) == names,
    decreases names.len(),
{
    if names.len() == 0 {
        assert(spec_construct(names) =~= names);
    } else {
        let prefix = names.drop_last();
        let l = names.last();
        assert(distinct(prefix)) by {
            assert forall|i: int, j: int|
                0 <= i < j < prefix.len() implies prefix[i] != prefix[j] by {
                assert(prefix[i] == names[i]);
                assert(prefix[j] == names[j]);
            }
        }
        lemma_construct_distinct(prefix);
        assert(!prefix.contains(l)) by {
            if prefix.contains(l) {
                let k = choose|k: int| 0 <= k < prefix.len() && prefix[k] == l;
                assert(names[k] == names[names.len() - 1]);
            }
        }
        assert(spec_construct(names) == spec_insert(prefix, l));
        assert(prefix.push(l) =~= names);
    }
}

/// Law (single use): once a name has been removed, removing it again never
/// finds it — the set resulting from a removal no longer contains the name,
/// whether or not it was present before.
pub proof fn lemma_remove_single_use(s: Seq<Seq<char>>, name: Seq<char>)
    ensures
        !spec_remove(s, name).contains(name),
        spec_remove(spec_remove(s, name), name) == spec_remove(s, name),
{
    lemma_remove_props(s, name);
    lemma_remove_absent(spec_remove(s, name), name);
}

/// Removing a name that is not present leaves the set unchanged.
proof fn lemma_remove_absent(s: Seq<Seq<char>>, name: Seq<char>)
    requires
        !s.contains(name),
    ensures
        spec_remove(s, name) == s,
    decreases s.len(),
{
    if s.len() > 0 {
        let prefix = s.drop_last();
        assert(!prefix.contains(name)) by {
            if prefix.contains(name) {
                let k = choose|k: int| 0 <= k < prefix.len() && prefix[k] == name;
                assert(s[k] == name);
            }
        }
        assert(s.last() != name) by {
            if s.last() == name {
                assert(s[s.len() - 1] == name);
            }
        }
        lemma_remove_absent(prefix, name);
        assert(prefix.push(s.last()) =~= s);
    }
}

/// Law: removals commute, so the order in which distinct pending names are
/// consumed never changes the resulting set — reaching the empty set does not
/// depend on the order of the binds.
pub proof fn lemma_remove_commutes(s: Seq<Seq<char>>, a: Seq<char>, b: Seq<char>)
    ensures
        spec_remove(spec_remove(s, a), b) == spec_remove(spec_remove(s, b), a),
    decreases s.len(),
{
    if s.len() > 0 {
        let prefix = s.drop_last();
        let l = s.last();
        lemma_remove_commutes(prefix, a, b);
        assert(prefix.push(l) =~= s);
        lemma_remove_push(prefix, l, a);
        lemma_remove_push(prefix, l, b);
        if l != a {
            lemma_remove_push(spec_remove(prefix, a), l, b);
        }
        if l != b {
            lemma_remove_push(spec_remove(prefix, b), l, a);
        }
    }
}

/// Law: removing a present name from a well-formed set clears exactly one
/// slot.  With commutativity this gives the completeness argument of the
/// binding protocol: consuming each of n distinct pending names, in whatever
/// order, leaves the empty set.
pub proof fn lemma_remove_found_len(s: Seq<Seq<char>>, name: Seq<char>)
    requires
        distinct(s),
        s.contains(name),
    ensures
        spec_remove(s, name).len() == s.len() - 1,
    decreases s.len(),
{
    let prefix = s.drop_last();
    let l = s.last();
    assert(distinct(prefix)) by {
        assert forall|i: int, j: int|
            0 <= i < j < prefix.len() implies prefix[i] != prefix[j] by {
            assert(prefix[i] == s[i]);
            assert(prefix[j] == s[j]);
        }
    }
    assert(prefix.push(l) =~= s);
    lemma_remove_push(prefix, l, name);
    if l == name {
        assert(!prefix.contains(name)) by {
            if prefix.contains(name) {
                let k = choose|k: int| 0 <= k < prefix.len() && prefix[k] == name;
                assert(s[k] == s[s.len() - 1]);
            }
        }
        lemma_remove_absent(prefix, name);
    } else {
        assert(prefix.contains(name)) by {
            let k = choose|k: int| 0 <= k < s.len() && s[k] == name;
            assert(k < s.len() - 1);
            assert(prefix[k] == name);
        }
        lemma_remove_found_len(prefix, name);
    }
}

/// Law: a set is always a subset of itself, well-formed or not.
pub proof fn lemma_subset_reflexive(a: Seq<Seq<char>>)
    ensures
        spec_subset(a, a),
{
    assert forall|i: int| 0 <= i < a.len() implies a.contains(#[trigger] a[i]) by {
        assert(a[i] == a[i]);
    }
}

/// Law: the empty set is a subset of every set.
pub proof fn lemma_empty_subset(b: Seq<Seq<char>>)
    ensures
        spec_subset(Seq::empty(), b),
{
}

} // verus!
