//! Multimaps in flattened form.
//!
//! A multimap from names to sequences of values can be written down as one
//! sequence of entries. An entry with a name opens a run; the entries
//! without a name that follow it carry further values for the same name.
//! This module says which multimap such a sequence stands for, whatever the
//! names (`K`) and the values (`V`) are.

use vstd::prelude::*;

verus! {

/// `m` with `name` bound to the single value `value`, whatever it was bound
/// to before.
pub open spec fn inserted<K, V>(m: Map<K, Seq<V>>, name: K, value: V) -> Map<K, Seq<V>> {
    m.insert(name, seq![value])
}

/// `m` with `value` added behind the values of `name`; a name that was
/// absent gets `value` alone.
pub open spec fn appended<K, V>(m: Map<K, Seq<V>>, name: K, value: V) -> Map<K, Seq<V>> {
    if m.dom().contains(name) {
        m.insert(name, m[name].push(value))
    } else {
        m.insert(name, seq![value])
    }
}

/// A flattened sequence is well formed when it does not start with a
/// continuation: every entry then belongs to a run.
pub open spec fn well_formed<K, V>(flat: Seq<(Option<K>, V)>) -> bool {
    flat.len() > 0 ==> flat[0].0 is Some
}

/// Entry `i` of `flat` opens a run for `name`.
pub open spec fn opens<K, V>(flat: Seq<(Option<K>, V)>, i: int, name: K) -> bool {
    0 <= i < flat.len() && flat[i].0 == Some(name)
}

/// The names that occur in `flat`.
pub open spec fn names_of<K, V>(flat: Seq<(Option<K>, V)>) -> Set<K> {
    Set::new(|name: K| exists|i: int| #[trigger] opens(flat, i, name))
}

/// The name of the run that is open at the end of `flat`.
pub open spec fn open_name<K, V>(flat: Seq<(Option<K>, V)>) -> Option<K>
    decreases flat.len(),
{
    if flat.len() == 0 {
        None
    } else {
        match flat.last().0 {
            Some(name) => Some(name),
            None => open_name(flat.drop_last()),
        }
    }
}

/// The map that reading `flat` front to back produces: a named entry binds
/// its name to its value alone, replacing what the name had; an unnamed
/// entry adds its value behind those of the open run.
pub open spec fn rebuilt<K, V>(flat: Seq<(Option<K>, V)>) -> Map<K, Seq<V>>
    decreases flat.len(),
{
    if flat.len() == 0 {
        Map::empty()
    } else {
        let before = rebuilt(flat.drop_last());
        match flat.last().0 {
            Some(name) => inserted(before, name, flat.last().1),
            None => match open_name(flat.drop_last()) {
                Some(name) => appended(before, name, flat.last().1),
                None => before,
            },
        }
    }
}

/// The values of all entries of `flat` that belong to a run of `name`, in
/// the order of the sequence.
pub open spec fn values_of<K, V>(flat: Seq<(Option<K>, V)>, name: K) -> Seq<V>
    decreases flat.len(),
{
    if flat.len() == 0 {
        Seq::empty()
    } else if open_name(flat) == Some(name) {
        values_of(flat.drop_last(), name).push(flat.last().1)
    } else {
        values_of(flat.drop_last(), name)
    }
}

/// The multimap that `flat` stands for: every name that occurs, with all
/// the values of its runs.
pub open spec fn grouped<K, V>(flat: Seq<(Option<K>, V)>) -> Map<K, Seq<V>> {
    Map::new(|name: K| names_of(flat).contains(name), |name: K| values_of(flat, name))
}

/// No two runs of `flat` are for the same name.
pub open spec fn distinct_names<K, V>(flat: Seq<(Option<K>, V)>) -> bool {
    forall|i: int, j: int, name: K|
        #![trigger opens(flat, i, name), opens(flat, j, name)]
        opens(flat, i, name) && opens(flat, j, name) ==> i == j
}

/// `flat` is a flattening of `m`: it starts with a named entry, every name
/// of `m` opens one run and no other name opens any, and the run holds the
/// values of the name in their order. The order of the runs is free.
pub open spec fn flattens<K, V>(flat: Seq<(Option<K>, V)>, m: Map<K, Seq<V>>) -> bool {
    well_formed(flat) && distinct_names(flat) && grouped(flat) == m
}

/// Only finitely many names occur in a sequence, and none that does not
/// occur is bound in the map that [`rebuilt`] describes.
pub proof fn lemma_rebuilt_within_names<K, V>(flat: Seq<(Option<K>, V)>)
    ensures
        names_of(flat).finite(),
        rebuilt(flat).dom().subset_of(names_of(flat)),
    decreases flat.len(),
{
    if flat.len() == 0 {
        assert(names_of(flat) =~= Set::empty()) by {
            assert forall|name: K| !names_of(flat).contains(name) by {
                if names_of(flat).contains(name) {
                    let i = choose|i: int| opens(flat, i, name);
                }
            }
        }
    } else {
        let shorter = flat.drop_last();
        lemma_rebuilt_within_names(shorter);
        lemma_open_name_occurs(shorter);
        assert forall|name: K| names_of(shorter).contains(name) implies names_of(flat).contains(
            name,
        ) by {
            let i = choose|i: int| opens(shorter, i, name);
            assert(opens(flat, i, name));
        }
        match flat.last().0 {
            Some(last_name) => {
                assert(opens(flat, flat.len() - 1, last_name));
                assert(names_of(flat) =~= names_of(shorter).insert(last_name)) by {
                    assert forall|name: K| names_of(flat).contains(name) implies names_of(
                        shorter,
                    ).insert(last_name).contains(name) by {
                        let i = choose|i: int| opens(flat, i, name);
                        if i < flat.len() - 1 {
                            assert(opens(shorter, i, name));
                        }
                    }
                }
            },
            None => {
                assert(names_of(flat) =~= names_of(shorter)) by {
                    assert forall|name: K| names_of(flat).contains(name) implies names_of(
                        shorter,
                    ).contains(name) by {
                        let i = choose|i: int| opens(flat, i, name);
                        assert(opens(shorter, i, name));
                    }
                }
            },
        }
    }
}

/// The open run is one of the runs of the sequence.
pub proof fn lemma_open_name_occurs<K, V>(flat: Seq<(Option<K>, V)>)
    ensures
        open_name(flat) matches Some(name) ==> names_of(flat).contains(name),
    decreases flat.len(),
{
    if flat.len() > 0 {
        match flat.last().0 {
            Some(name) => {
                assert(opens(flat, flat.len() - 1, name));
            },
            None => {
                lemma_open_name_occurs(flat.drop_last());
                if let Some(name) = open_name(flat.drop_last()) {
                    let i = choose|i: int| opens(flat.drop_last(), i, name);
                    assert(opens(flat, i, name));
                }
            },
        }
    }
}

/// The names of a part of a sequence are among the names of the whole.
pub proof fn lemma_prefix_names_within<K, V>(flat: Seq<(Option<K>, V)>, n: int)
    requires
        0 <= n <= flat.len(),
    ensures
        names_of(flat.take(n)).subset_of(names_of(flat)),
{
    assert forall|name: K| names_of(flat.take(n)).contains(name) implies names_of(flat).contains(
        name,
    ) by {
        let i = choose|i: int| opens(flat.take(n), i, name);
        assert(opens(flat, i, name));
    }
}

/// A well-formed sequence with an entry in it has an open run.
pub proof fn lemma_open_name<K, V>(flat: Seq<(Option<K>, V)>)
    requires
        well_formed(flat),
        flat.len() > 0,
    ensures
        open_name(flat) is Some,
    decreases flat.len(),
{
    if flat.last().0 is None {
        assert(flat.len() > 1);
        assert(flat.drop_last()[0] == flat[0]);
        lemma_open_name(flat.drop_last());
    }
}

} // verus!
