//! A map from names to values that is kept in the order of its names.

use crate::text::{
    lemma_text_lt_irreflexive, lemma_text_lt_total, lemma_text_lt_transitive, str_eq, str_lt,
    text_lt,
};
use crate::merge::Merge;
use vstd::prelude::*;

verus! {

/// Whether every name comes before all the names after it.
pub open spec fn sorted_names(names: Seq<Seq<char>>) -> bool {
    forall|i: int, j: int| 0 <= i < j < names.len() ==> text_lt(#[trigger] names[i], #[trigger] names[j])
}

/// The map that gives each of `names` the value at its place in `values`.
pub open spec fn table<V>(names: Seq<Seq<char>>, values: Seq<V>) -> Map<Seq<char>, V> {
    Map::new(|k: Seq<char>| names.contains(k), |k: Seq<char>| values[names.index_of(k)])
}

/// In a sorted list every name stands at one place only.
pub proof fn lemma_sorted_index_of(names: Seq<Seq<char>>, i: int)
    requires
        sorted_names(names),
        0 <= i < names.len(),
    ensures
        names.contains(names[i]),
        names.index_of(names[i]) == i,
{
    let j = names.index_of(names[i]);
    assert(names.contains(names[i]));
    lemma_text_lt_irreflexive(names[i]);
    if j < i {
        assert(text_lt(names[j], names[i]));
    } else if i < j {
        assert(text_lt(names[i], names[j]));
    }
}

/// Putting a name into a sorted list at a place between the names before it
/// and the names after it keeps the list sorted, and the table changes at that
/// name only.
pub proof fn lemma_table_insert<V>(
    names: Seq<Seq<char>>,
    values: Seq<V>,
    p: int,
    name: Seq<char>,
    value: V,
)
    requires
        sorted_names(names),
        names.len() == values.len(),
        0 <= p <= names.len(),
        forall|i: int| 0 <= i < p ==> text_lt(#[trigger] names[i], name),
        forall|i: int| p <= i < names.len() ==> text_lt(name, #[trigger] names[i]),
    ensures
        sorted_names(names.insert(p, name)),
        !names.contains(name),
        table(names.insert(p, name), values.insert(p, value)) == table(names, values).insert(
            name,
            value,
        ),
{
    let names2 = names.insert(p, name);
    let values2 = values.insert(p, value);
    lemma_text_lt_irreflexive(name);
    assert(sorted_names(names2)) by {
        assert forall|i: int, j: int| 0 <= i < j < names2.len() implies text_lt(
            #[trigger] names2[i],
            #[trigger] names2[j],
        ) by {
            let a = if i < p { i } else { i - 1 };
            let b = if j < p { j } else { j - 1 };
            if i != p && j != p {
                assert(names2[i] == names[a] && names2[j] == names[b]);
            } else if i == p {
                assert(names2[j] == names[b]);
            } else {
                assert(names2[i] == names[a]);
            }
        }
    }
    assert forall|k: Seq<char>| names2.contains(k) <==> (k == name || names.contains(k)) by {
        if names2.contains(k) {
            let i = names2.index_of(k);
            if i < p {
                assert(names[i] == k);
            } else if i > p {
                assert(names[i - 1] == k);
            }
        }
        if names.contains(k) {
            let i = names.index_of(k);
            if i < p {
                assert(names2[i] == k);
            } else {
                assert(names2[i + 1] == k);
            }
        }
        if k == name {
            assert(names2[p] == k);
        }
    }
    assert(names2[p] == name);
    lemma_sorted_index_of(names2, p);
    assert forall|k: Seq<char>| names.contains(k) implies k != name && values2[names2.index_of(k)]
        == values[names.index_of(k)] by {
        let i = names.index_of(k);
        lemma_sorted_index_of(names, i);
        if i < p {
            assert(names2[i] == k);
            lemma_sorted_index_of(names2, i);
        } else {
            assert(names2[i + 1] == k);
            lemma_sorted_index_of(names2, i + 1);
        }
    }
    assert(table(names2, values2) =~= table(names, values).insert(name, value));
}

/// Taking the name at one place out of a sorted list keeps the list sorted,
/// and the table loses that name only.
pub proof fn lemma_table_remove<V>(names: Seq<Seq<char>>, values: Seq<V>, p: int)
    requires
        sorted_names(names),
        names.len() == values.len(),
        0 <= p < names.len(),
    ensures
        sorted_names(names.remove(p)),
        !names.remove(p).contains(names[p]),
        table(names.remove(p), values.remove(p)) == table(names, values).remove(names[p]),
{
    let names2 = names.remove(p);
    let values2 = values.remove(p);
    assert(sorted_names(names2)) by {
        assert forall|i: int, j: int| 0 <= i < j < names2.len() implies text_lt(
            #[trigger] names2[i],
            #[trigger] names2[j],
        ) by {
            let a = if i < p { i } else { i + 1 };
            let b = if j < p { j } else { j + 1 };
            assert(names2[i] == names[a] && names2[j] == names[b]);
        }
    }
    lemma_sorted_index_of(names, p);
    assert forall|k: Seq<char>| names2.contains(k) <==> (k != names[p] && names.contains(k)) by {
        if names2.contains(k) {
            let i = names2.index_of(k);
            let a = if i < p { i } else { i + 1 };
            assert(names[a] == k);
            lemma_sorted_index_of(names, a);
        }
        if names.contains(k) && k != names[p] {
            let i = names.index_of(k);
            if i < p {
                assert(names2[i] == k);
            } else {
                assert(names2[i - 1] == k);
            }
        }
    }
    assert forall|k: Seq<char>| names2.contains(k) implies values2[names2.index_of(k)]
        == values[names.index_of(k)] by {
        let i = names2.index_of(k);
        lemma_sorted_index_of(names2, i);
        let a = if i < p { i } else { i + 1 };
        assert(names[a] == k);
        lemma_sorted_index_of(names, a);
    }
    assert(table(names2, values2) =~= table(names, values).remove(names[p]));
}

/// One name with its value.
#[derive(Debug)]
pub struct Entry<'c, V> {
    pub name: &'c str,
    pub value: V,
}

/// The names of `entries`, in order.
pub open spec fn names_of<V>(entries: Seq<Entry<'_, V>>) -> Seq<Seq<char>> {
    Seq::new(entries.len(), |i: int| entries[i].name@)
}

/// The values of `entries`, in order.
pub open spec fn values_of<V>(entries: Seq<Entry<'_, V>>) -> Seq<V> {
    Seq::new(entries.len(), |i: int| entries[i].value)
}

/// A map from names to values, held in the order of the names.
#[derive(Debug)]
pub struct NameMap<'c, V> {
    entries: Vec<Entry<'c, V>>,
}

impl<'c, V> NameMap<'c, V> {
    #[verifier::type_invariant]
    spec fn in_order(self) -> bool {
        sorted_names(self.names())
    }

    /// The names, in order.
    pub closed spec fn names(&self) -> Seq<Seq<char>> {
        names_of(self.entries@)
    }

    /// The values, each at the place of its name.
    pub closed spec fn values(&self) -> Seq<V> {
        values_of(self.entries@)
    }

    /// The map as a mathematical map.
    pub open spec fn view(&self) -> Map<Seq<char>, V> {
        table(self.names(), self.values())
    }

    /// The empty map.
    pub fn new() -> (out: Self)
        ensures
            out.names() == Seq::<Seq<char>>::empty(),
            out.values() == Seq::<V>::empty(),
            out@ == Map::<Seq<char>, V>::empty(),
    {
        let out = NameMap { entries: Vec::new() };
        assert(out.names() =~= Seq::<Seq<char>>::empty());
        assert(out.values() =~= Seq::<V>::empty());
        assert(out@ =~= Map::<Seq<char>, V>::empty());
        out
    }

    /// The number of names.
    pub fn len(&self) -> (out: usize)
        ensures
            out == self.names().len(),
            out == self.values().len(),
            sorted_names(self.names()),
    {
        proof {
            use_type_invariant(self);
        }
        self.entries.len()
    }

    /// The name at place `i`.
    pub fn name_at(&self, i: usize) -> (out: &'c str)
        requires
            i < self.names().len(),
        ensures
            out@ == self.names()[i as int],
    {
        self.entries[i].name
    }

    /// The value at place `i`.
    pub fn value_at(&self, i: usize) -> (out: &V)
        requires
            i < self.values().len(),
        ensures
            *out == self.values()[i as int],
    {
        &self.entries[i].value
    }

    /// The place of `name`, if the map holds it.
    pub fn find(&self, name: &str) -> (out: Option<usize>)
        ensures
            out is Some == self.names().contains(name@),
            out is Some ==> out->0 < self.names().len() && self.names()[out->0 as int] == name@
                && self.names().index_of(name@) == out->0,
            self.names().len() == self.values().len(),
            sorted_names(self.names()),
    {
        proof {
            use_type_invariant(self);
        }
        let mut i: usize = 0;
        while i < self.entries.len()
            invariant
                i <= self.entries@.len(),
                sorted_names(self.names()),
                forall|j: int| 0 <= j < i ==> self.names()[j] != name@,
            decreases self.entries@.len() - i,
        {
            if str_eq(self.entries[i].name, name) {
                proof {
                    lemma_sorted_index_of(self.names(), i as int);
                }
                return Some(i);
            }
            i += 1;
        }
        None
    }

    /// The value that the map holds for `name`, if any.
    pub fn get(&self, name: &str) -> (out: Option<&V>)
        ensures
            out is Some == self@.contains_key(name@),
            out is Some ==> *out->0 == self@[name@],
    {
        match self.find(name) {
            Some(i) => Some(&self.entries[i].value),
            None => None,
        }
    }

    /// Gives `name` the value `value`, and returns the value that it had.
    pub fn insert(&mut self, name: &'c str, value: V) -> (out: Option<V>)
        ensures
            final(self)@ == old(self)@.insert(name@, value),
            out == (if old(self)@.contains_key(name@) {
                Some(old(self)@[name@])
            } else {
                None
            }),
            sorted_names(final(self).names()),
            final(self).names().len() == final(self).values().len(),
            old(self).names().contains(name@) ==> final(self).names() == old(self).names(),
    {
        proof {
            use_type_invariant(&*self);
        }
        let ghost names = self.names();
        let ghost values = self.values();
        let mut entries: Vec<Entry<'c, V>> = Vec::new();
        std::mem::swap(&mut self.entries, &mut entries);
        let mut p: usize = 0;
        while p < entries.len() && str_lt(entries[p].name, name)
            invariant
                p <= entries@.len(),
                names_of(entries@) == names,
                forall|j: int| 0 <= j < p ==> text_lt(#[trigger] names[j], name@),
            decreases entries@.len() - p,
        {
            p += 1;
        }
        let out = if p < entries.len() && str_eq(entries[p].name, name) {
            proof {
                lemma_sorted_index_of(names, p as int);
            }
            let held = entries.remove(p);
            let ghost names1 = names_of(entries@);
            let ghost values1 = values_of(entries@);
            proof {
                lemma_table_remove(names, values, p as int);
                assert(names1 =~= names.remove(p as int));
                assert(values1 =~= values.remove(p as int));
                assert forall|i: int| 0 <= i < p implies text_lt(#[trigger] names1[i], name@) by {
                    assert(names1[i] == names[i]);
                }
                assert forall|i: int| p <= i < names1.len() implies text_lt(
                    name@,
                    #[trigger] names1[i],
                ) by {
                    assert(names1[i] == names[i + 1]);
                    assert(text_lt(names[p as int], names[i + 1]));
                }
                lemma_table_insert(names1, values1, p as int, name@, value);
            }
            entries.insert(p, Entry { name, value });
            proof {
                assert(names_of(entries@) =~= names1.insert(p as int, name@));
                assert(values_of(entries@) =~= values1.insert(p as int, value));
                assert(names_of(entries@) =~= names);
                assert(table(names, values).remove(name@).insert(name@, value) =~= table(
                    names,
                    values,
                ).insert(name@, value));
            }
            Some(held.value)
        } else {
            proof {
                assert forall|i: int| p <= i < names.len() implies text_lt(
                    name@,
                    #[trigger] names[i],
                ) by {
                    lemma_text_lt_total(names[p as int], name@);
                    if i > p {
                        assert(text_lt(names[p as int], names[i]));
                        lemma_text_lt_transitive(name@, names[p as int], names[i]);
                    }
                }
                lemma_table_insert(names, values, p as int, name@, value);
            }
            entries.insert(p, Entry { name, value });
            proof {
                assert(names_of(entries@) =~= names.insert(p as int, name@));
                assert(values_of(entries@) =~= values.insert(p as int, value));
            }
            None
        };
        std::mem::swap(&mut self.entries, &mut entries);
        out
    }

    /// Takes `name` out of the map, and returns the value that it had.
    pub fn remove(&mut self, name: &str) -> (out: Option<V>)
        ensures
            final(self)@ == old(self)@.remove(name@),
            out == (if old(self)@.contains_key(name@) {
                Some(old(self)@[name@])
            } else {
                None
            }),
            sorted_names(final(self).names()),
            final(self).names().len() == final(self).values().len(),
            !final(self).names().contains(name@),
    {
        match self.find(name) {
            Some(p) => {
                let ghost names = self.names();
                let ghost values = self.values();
                proof {
                    lemma_table_remove(names, values, p as int);
                }
                let mut entries: Vec<Entry<'c, V>> = Vec::new();
                std::mem::swap(&mut self.entries, &mut entries);
                let held = entries.remove(p);
                proof {
                    assert(names_of(entries@) =~= names.remove(p as int));
                    assert(values_of(entries@) =~= values.remove(p as int));
                }
                std::mem::swap(&mut self.entries, &mut entries);
                Some(held.value)
            },
            None => {
                assert(self@.remove(name@) =~= self@);
                None
            },
        }
    }
}

/// Whether `out` holds every name of `a` and of `b`: with the left merge of
/// the two values where both hold the name, and else with the one value
/// there is.
pub open spec fn table_merges_left<V: Merge>(
    a: Map<Seq<char>, V>,
    b: Map<Seq<char>, V>,
    out: Map<Seq<char>, V>,
) -> bool {
    &&& forall|k: Seq<char>| #[trigger]
        out.contains_key(k) <==> a.contains_key(k) || b.contains_key(k)
    &&& forall|k: Seq<char>|
        a.contains_key(k) && b.contains_key(k) ==> a[k].merges_left(b[k], #[trigger] out[k])
    &&& forall|k: Seq<char>| a.contains_key(k) && !b.contains_key(k) ==> #[trigger] out[k] == a[k]
    &&& forall|k: Seq<char>| !a.contains_key(k) && b.contains_key(k) ==> #[trigger] out[k] == b[k]
}

/// Whether `out` holds every name of `a` and of `b`: with the right merge of
/// the two values where both hold the name, and else with the one value
/// there is.
pub open spec fn table_merges_right<V: Merge>(
    a: Map<Seq<char>, V>,
    b: Map<Seq<char>, V>,
    out: Map<Seq<char>, V>,
) -> bool {
    &&& forall|k: Seq<char>| #[trigger]
        out.contains_key(k) <==> a.contains_key(k) || b.contains_key(k)
    &&& forall|k: Seq<char>|
        a.contains_key(k) && b.contains_key(k) ==> a[k].merges_right(b[k], #[trigger] out[k])
    &&& forall|k: Seq<char>| a.contains_key(k) && !b.contains_key(k) ==> #[trigger] out[k] == a[k]
    &&& forall|k: Seq<char>| !a.contains_key(k) && b.contains_key(k) ==> #[trigger] out[k] == b[k]
}

/// The table of the entries from place `from` on.
pub open spec fn table_from<V>(names: Seq<Seq<char>>, values: Seq<V>, from: int) -> Map<
    Seq<char>,
    V,
> {
    table(names.skip(from), values.skip(from))
}

/// The table from one place on is the table from the next place on with the
/// entry of that place put in, and that entry's name is not in the rest.
proof fn lemma_table_from_step<V>(names: Seq<Seq<char>>, values: Seq<V>, from: int)
    requires
        sorted_names(names),
        names.len() == values.len(),
        0 <= from < names.len(),
    ensures
        !table_from(names, values, from + 1).contains_key(names[from]),
        table_from(names, values, from) == table_from(names, values, from + 1).insert(
            names[from],
            values[from],
        ),
{
    let n1 = names.skip(from + 1);
    let v1 = values.skip(from + 1);
    assert(sorted_names(n1)) by {
        assert forall|i: int, j: int| 0 <= i < j < n1.len() implies text_lt(
            #[trigger] n1[i],
            #[trigger] n1[j],
        ) by {
            assert(n1[i] == names[from + 1 + i] && n1[j] == names[from + 1 + j]);
        }
    }
    assert forall|i: int| 0 <= i < n1.len() implies text_lt(names[from], #[trigger] n1[i]) by {
        assert(n1[i] == names[from + 1 + i]);
    }
    lemma_table_insert(n1, v1, 0, names[from], values[from]);
    assert(n1.insert(0, names[from]) =~= names.skip(from));
    assert(v1.insert(0, values[from]) =~= values.skip(from));
}

impl<'c, V: Merge> Merge for NameMap<'c, V> {
    open spec fn merges_left(self, other: Self, out: Self) -> bool {
        table_merges_left(self@, other@, out@)
    }

    open spec fn merges_right(self, other: Self, out: Self) -> bool {
        table_merges_right(self@, other@, out@)
    }

    fn merge_left(&mut self, other: Self) -> (out: &mut Self) {
        proof {
            use_type_invariant(&other);
        }
        let ghost a = self@;
        let ghost names = other.names();
        let ghost values = other.values();
        let mut rest = other.entries;
        proof {
            lemma_table_from_step_end(names, values);
            assert(names.take(rest@.len() as int) =~= names);
            assert(values.take(rest@.len() as int) =~= values);
        }
        while rest.len() > 0
            invariant
                sorted_names(names),
                names.len() == values.len(),
                rest@.len() <= names.len(),
                names_of(rest@) == names.take(rest@.len() as int),
                values_of(rest@) == values.take(rest@.len() as int),
                table_merges_left(a, table_from(names, values, rest@.len() as int), self@),
            decreases rest@.len(),
        {
            let ghost n = rest@.len() - 1;
            proof {
                lemma_table_from_step(names, values, n);
            }
            let entry = rest.pop().unwrap();
            assert(entry.name@ == names[n]) by {
                assert(names.take(n + 1)[n] == names[n]);
            }
            assert(entry.value == values[n]) by {
                assert(values.take(n + 1)[n] == values[n]);
            }
            match self.remove(entry.name) {
                Some(held) => {
                    let mut held = held;
                    held.merge_left(entry.value);
                    self.insert(entry.name, held);
                },
                None => {
                    self.insert(entry.name, entry.value);
                },
            }
            proof {
                assert(names_of(rest@) =~= names.take(n));
                assert(values_of(rest@) =~= values.take(n));
            }
        }
        proof {
            lemma_table_from_step_start(names, values);
        }
        self
    }

    fn merge_right(&mut self, other: Self) -> (out: &mut Self) {
        proof {
            use_type_invariant(&other);
        }
        let ghost a = self@;
        let ghost names = other.names();
        let ghost values = other.values();
        let mut rest = other.entries;
        proof {
            lemma_table_from_step_end(names, values);
            assert(names.take(rest@.len() as int) =~= names);
            assert(values.take(rest@.len() as int) =~= values);
        }
        while rest.len() > 0
            invariant
                sorted_names(names),
                names.len() == values.len(),
                rest@.len() <= names.len(),
                names_of(rest@) == names.take(rest@.len() as int),
                values_of(rest@) == values.take(rest@.len() as int),
                table_merges_right(a, table_from(names, values, rest@.len() as int), self@),
            decreases rest@.len(),
        {
            let ghost n = rest@.len() - 1;
            proof {
                lemma_table_from_step(names, values, n);
            }
            let entry = rest.pop().unwrap();
            assert(entry.name@ == names[n]) by {
                assert(names.take(n + 1)[n] == names[n]);
            }
            assert(entry.value == values[n]) by {
                assert(values.take(n + 1)[n] == values[n]);
            }
            match self.remove(entry.name) {
                Some(held) => {
                    let mut held = held;
                    held.merge_right(entry.value);
                    self.insert(entry.name, held);
                },
                None => {
                    self.insert(entry.name, entry.value);
                },
            }
            proof {
                assert(names_of(rest@) =~= names.take(n));
                assert(values_of(rest@) =~= values.take(n));
            }
        }
        proof {
            lemma_table_from_step_start(names, values);
        }
        self
    }
}

/// The table from the end on is empty.
proof fn lemma_table_from_step_end<V>(names: Seq<Seq<char>>, values: Seq<V>)
    requires
        names.len() == values.len(),
    ensures
        table_from(names, values, names.len() as int) == Map::<Seq<char>, V>::empty(),
{
    assert(names.skip(names.len() as int) =~= Seq::<Seq<char>>::empty());
    assert(table_from(names, values, names.len() as int) =~= Map::<Seq<char>, V>::empty());
}

/// The table from the start on is the whole table.
proof fn lemma_table_from_step_start<V>(names: Seq<Seq<char>>, values: Seq<V>)
    ensures
        table_from(names, values, 0) == table(names, values),
{
    assert(names.skip(0) =~= names);
    assert(values.skip(0) =~= values);
}

} // verus!
