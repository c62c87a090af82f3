//! What the rebuilt multimap holds, said without reference to the order in
//! which it is built.

use crate::flat::{
    distinct_names, flattens, grouped, lemma_open_name, lemma_open_name_occurs, names_of, open_name, opens,
    rebuilt, values_of, well_formed,
};
use vstd::prelude::*;

verus! {

/// Entry `i` of `flat` opens a run for `name`, and no later entry opens
/// another.
pub open spec fn opens_last<K, V>(flat: Seq<(Option<K>, V)>, i: int, name: K) -> bool {
    opens(flat, i, name) && forall|j: int| i < j ==> !#[trigger] opens(flat, j, name)
}

/// The run that entry `i` of `flat` opens reaches up to `end`: the entries
/// in between are continuations, and at `end` the sequence is over or the
/// next run begins.
pub open spec fn run_ends<K, V>(flat: Seq<(Option<K>, V)>, i: int, end: int) -> bool {
    &&& 0 <= i < end <= flat.len()
    &&& forall|k: int| i < k < end ==> (#[trigger] flat[k]).0 is None
    &&& end < flat.len() ==> flat[end].0 is Some
}

/// The values of the entries of `flat` from `i` up to `end`.
pub open spec fn values_between<K, V>(flat: Seq<(Option<K>, V)>, i: int, end: int) -> Seq<V> {
    Seq::new((end - i) as nat, |k: int| flat[i + k].1)
}

/// A well-formed sequence stays well formed without its last entry.
proof fn lemma_prefix_well_formed<K, V>(flat: Seq<(Option<K>, V)>)
    requires
        well_formed(flat),
        flat.len() > 0,
    ensures
        well_formed(flat.drop_last()),
{
    if flat.len() > 1 {
        assert(flat.drop_last()[0] == flat[0]);
    }
}

/// The names of a sequence are those of the sequence without its last
/// entry, and the name of that entry.
proof fn lemma_prefix_names<K, V>(flat: Seq<(Option<K>, V)>, name: K)
    requires
        flat.len() > 0,
    ensures
        names_of(flat).contains(name) <==> names_of(flat.drop_last()).contains(name) || flat.last().0
            == Some(name),
{
    let shorter = flat.drop_last();
    if names_of(flat).contains(name) {
        let i = choose|i: int| opens(flat, i, name);
        if i < flat.len() - 1 {
            assert(opens(shorter, i, name));
        }
    }
    if names_of(shorter).contains(name) {
        let i = choose|i: int| opens(shorter, i, name);
        assert(opens(flat, i, name));
    }
    if flat.last().0 == Some(name) {
        assert(opens(flat, flat.len() - 1, name));
    }
}

/// A name that does not occur has no values.
proof fn lemma_values_of_absent<K, V>(flat: Seq<(Option<K>, V)>, name: K)
    requires
        !names_of(flat).contains(name),
    ensures
        values_of(flat, name) == Seq::<V>::empty(),
    decreases flat.len(),
{
    if flat.len() > 0 {
        lemma_open_name_occurs(flat);
        lemma_prefix_names(flat, name);
        lemma_values_of_absent(flat.drop_last(), name);
    }
}

/// Where no name opens two runs, none does in the sequence without its
/// last entry, and the name of that entry is new.
proof fn lemma_prefix_distinct<K, V>(flat: Seq<(Option<K>, V)>)
    requires
        distinct_names(flat),
        flat.len() > 0,
    ensures
        distinct_names(flat.drop_last()),
        flat.last().0 matches Some(name) ==> !names_of(flat.drop_last()).contains(name),
{
    let shorter = flat.drop_last();
    assert forall|i: int, j: int, name: K|
        #![trigger opens(shorter, i, name), opens(shorter, j, name)]
        opens(shorter, i, name) && opens(shorter, j, name) implies i == j by {
        assert(opens(flat, i, name) && opens(flat, j, name));
    }
    if let Some(name) = flat.last().0 {
        if names_of(shorter).contains(name) {
            let i = choose|i: int| opens(shorter, i, name);
            assert(opens(flat, i, name) && opens(flat, flat.len() - 1, name));
        }
    }
}

/// The open run of a sequence is that of its last named entry.
proof fn lemma_open_name_index<K, V>(flat: Seq<(Option<K>, V)>) -> (p: int)
    ensures
        open_name(flat) is Some ==> 0 <= p < flat.len() && flat[p].0 == open_name(flat),
        forall|k: int| p < k < flat.len() ==> (#[trigger] flat[k]).0 is None,
        open_name(flat) is None ==> p == -1,
    decreases flat.len(),
{
    if flat.len() == 0 {
        -1
    } else if flat.last().0 is Some {
        flat.len() - 1
    } else {
        let p = lemma_open_name_index(flat.drop_last());
        assert forall|k: int| p < k < flat.len() implies (#[trigger] flat[k]).0 is None by {
            if k < flat.len() - 1 {
                assert(flat.drop_last()[k].0 is None);
            }
        }
        p
    }
}

/// What the rebuilt map holds under a name, whether or not the name opens
/// several runs: the values of the last run that the name opens, and of no
/// other. An earlier run of the same name is replaced, not continued.
pub proof fn lemma_rebuilt_last_run<K, V>(flat: Seq<(Option<K>, V)>, name: K, i: int, end: int)
    requires
        opens_last(flat, i, name),
        run_ends(flat, i, end),
    ensures
        rebuilt(flat).dom().contains(name),
        rebuilt(flat)[name] == values_between(flat, i, end),
    decreases flat.len(),
{
    let n = flat.len() as int;
    let shorter = flat.drop_last();
    if i == n - 1 {
        assert(values_between(flat, i, end) =~= seq![flat.last().1]);
    } else {
        assert(opens(shorter, i, name));
        assert forall|j: int| i < j implies !#[trigger] opens(shorter, j, name) by {
            if opens(shorter, j, name) {
                assert(opens(flat, j, name));
            }
        }
        if end == n {
            assert(flat[n - 1].0 is None);
            assert forall|k: int| i < k < n - 1 implies (#[trigger] shorter[k]).0 is None by {
                assert(flat[k].0 is None);
            }
            lemma_rebuilt_last_run(shorter, name, i, n - 1);
            let p = lemma_open_name_index(shorter);
            assert(p == i) by {
                if p < i {
                    assert(shorter[i].0 is None);
                }
                if p > i {
                    assert(shorter[p] == flat[p]);
                }
            }
            assert(values_between(flat, i, n) =~= values_between(shorter, i, n - 1).push(flat.last().1));
        } else {
            assert forall|k: int| i < k < end implies (#[trigger] shorter[k]).0 is None by {
                assert(flat[k].0 is None);
            }
            lemma_rebuilt_last_run(shorter, name, i, end);
            assert(values_between(flat, i, end) =~= values_between(shorter, i, end));
            match flat.last().0 {
                Some(other) => {
                    assert(other != name) by {
                        if other == name {
                            assert(opens(flat, n - 1, name));
                        }
                    }
                },
                None => {
                    let p = lemma_open_name_index(shorter);
                    assert(shorter[end].0 is Some);
                    assert(p >= end) by {
                        if p < end {
                            assert(shorter[end].0 is None);
                        }
                    }
                    assert(open_name(shorter) is Some) by {
                        if open_name(shorter) is None {
                            assert(shorter[end].0 is None);
                        }
                    }
                    assert(open_name(shorter) != Some(name)) by {
                        if open_name(shorter) == Some(name) {
                            assert(opens(flat, p, name));
                        }
                    }
                },
            }
        }
    }
}

/// The names of the rebuilt map are the names that occur in the sequence,
/// whether or not a name occurs twice.
pub proof fn lemma_rebuilt_names<K, V>(flat: Seq<(Option<K>, V)>)
    requires
        well_formed(flat),
    ensures
        rebuilt(flat).dom() == names_of(flat),
    decreases flat.len(),
{
    if flat.len() == 0 {
        assert forall|name: K| !names_of(flat).contains(name) by {
            if names_of(flat).contains(name) {
                let i = choose|i: int| opens(flat, i, name);
            }
        }
        assert(rebuilt(flat).dom() =~= names_of(flat));
    } else {
        let shorter = flat.drop_last();
        lemma_prefix_well_formed(flat);
        lemma_rebuilt_names(shorter);
        assert forall|name: K| rebuilt(flat).dom().contains(name) <==> names_of(flat).contains(
            name,
        ) by {
            lemma_prefix_names(flat, name);
            if flat.last().0 is None {
                lemma_open_name(shorter);
                lemma_open_name_occurs(shorter);
            }
        }
        assert(rebuilt(flat).dom() =~= names_of(flat));
    }
}

/// Where no name opens two runs, rebuilding loses nothing: the map binds
/// every name that occurs to all of its values, in the order in which the
/// sequence gives them.
pub proof fn lemma_rebuilt_is_grouped<K, V>(flat: Seq<(Option<K>, V)>)
    requires
        well_formed(flat),
        distinct_names(flat),
    ensures
        rebuilt(flat) == grouped(flat),
    decreases flat.len(),
{
    lemma_rebuilt_names(flat);
    if flat.len() > 0 {
        let shorter = flat.drop_last();
        lemma_prefix_well_formed(flat);
        lemma_prefix_distinct(flat);
        lemma_rebuilt_is_grouped(shorter);
        lemma_rebuilt_names(shorter);
        assert forall|name: K| names_of(flat).contains(name) implies rebuilt(flat)[name]
            == values_of(flat, name) by {
            lemma_prefix_names(flat, name);
            match flat.last().0 {
                Some(last_name) => {
                    if name == last_name {
                        lemma_values_of_absent(shorter, name);
                    }
                },
                None => {
                    lemma_open_name(shorter);
                    lemma_open_name_occurs(shorter);
                },
            }
        }
    }
    assert(rebuilt(flat) =~= grouped(flat));
}

/// Flattening a map and rebuilding it gives the map back: the rebuilt map
/// holds under every name what `m` held, and no other name.
pub proof fn lemma_flattened_rebuilds<K, V>(flat: Seq<(Option<K>, V)>, m: Map<K, Seq<V>>)
    requires
        flattens(flat, m),
    ensures
        rebuilt(flat) == m,
{
    lemma_rebuilt_is_grouped(flat);
}

} // verus!
