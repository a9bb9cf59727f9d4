//! Grouping by name, in two levels, with what came first staying first.
//!
//! Items arrive in one run, each under an outer and an inner name. A
//! grouping holds one group for each outer name, in the order in which the
//! names first occur; under it one group for each inner name that occurs
//! with that outer name, again by first occurrence; and under that the items
//! of both names, in the order in which they came. No name occurs twice at
//! its level and no group is empty.

use vstd::prelude::*;

verus! {

/// Values that can be copied without a change to what they stand for.
pub trait Duplicate: View + Sized {
    fn duplicate(&self) -> (copy: Self)
        ensures
            copy@ == self@,
    ;
}

impl Duplicate for String {
    fn duplicate(&self) -> (copy: String) {
        self.clone()
    }
}

impl Duplicate for u64 {
    fn duplicate(&self) -> (copy: u64) {
        *self
    }
}

/// A name and the members that stand under it.
#[derive(Debug, Clone, PartialEq, Eq)]
pub struct Group<T> {
    pub name: String,
    pub members: Vec<T>,
}

/// A [`Group`] with its name seen as characters and its members through
/// their views.
#[verifier::ext_equal]
pub struct GroupView<V> {
    pub name: Seq<char>,
    pub members: Seq<V>,
}

/// Names seen as their characters.
pub open spec fn texts(names: Seq<String>) -> Seq<Seq<char>> {
    names.map_values(|n: String| n@)
}

/// Items seen through their views.
pub open spec fn views<T: View>(items: Seq<T>) -> Seq<T::V> {
    items.map_values(|t: T| t@)
}

/// An item together with the two names it stands under.
#[derive(Debug, Clone, PartialEq, Eq)]
pub struct Entry<T> {
    pub outer: String,
    pub inner: String,
    pub item: T,
}

/// The outer names of a run of entries.
pub open spec fn outer_names<T>(entries: Seq<Entry<T>>) -> Seq<Seq<char>> {
    entries.map_values(|e: Entry<T>| e.outer@)
}

/// The inner names of a run of entries.
pub open spec fn inner_names<T>(entries: Seq<Entry<T>>) -> Seq<Seq<char>> {
    entries.map_values(|e: Entry<T>| e.inner@)
}

/// The items of a run of entries, seen through their views.
pub open spec fn items<T: View>(entries: Seq<Entry<T>>) -> Seq<T::V> {
    entries.map_values(|e: Entry<T>| e.item@)
}

/// The names of a run of pairs of a name and a value.
pub open spec fn pair_names<V>(pairs: Seq<(String, V)>) -> Seq<Seq<char>> {
    pairs.map_values(|p: (String, V)| p.0@)
}

/// The values of a run of pairs of a name and a value, seen through their
/// views.
pub open spec fn pair_values<V: View>(pairs: Seq<(String, V)>) -> Seq<V::V> {
    pairs.map_values(|p: (String, V)| p.1@)
}

impl<T: View> View for Group<T> {
    type V = GroupView<T::V>;

    open spec fn view(&self) -> GroupView<T::V> {
        GroupView { name: self.name@, members: views(self.members@) }
    }
}

/// The names of a run without their repetitions: each name once, at the
/// place of its first occurrence.
pub open spec fn distinct(names: Seq<Seq<char>>) -> Seq<Seq<char>>
    decreases names.len(),
{
    if names.len() == 0 {
        Seq::empty()
    } else {
        let before = distinct(names.drop_last());
        if before.contains(names.last()) {
            before
        } else {
            before.push(names.last())
        }
    }
}

/// The inner names that occur with the outer name `name`, without their
/// repetitions, by first occurrence. Item `k` stands under `outer[k]` and
/// `inner[k]`.
pub open spec fn names_under(outer: Seq<Seq<char>>, inner: Seq<Seq<char>>, name: Seq<char>) -> Seq<
    Seq<char>,
>
    decreases outer.len(),
{
    if outer.len() == 0 {
        Seq::empty()
    } else {
        let before = names_under(outer.drop_last(), inner, name);
        let k = outer.len() - 1;
        if outer[k] == name && !before.contains(inner[k]) {
            before.push(inner[k])
        } else {
            before
        }
    }
}

/// The places of the items that stand under both names, in rising order.
pub open spec fn positions(
    outer: Seq<Seq<char>>,
    inner: Seq<Seq<char>>,
    outer_name: Seq<char>,
    inner_name: Seq<char>,
) -> Seq<int>
    decreases outer.len(),
{
    if outer.len() == 0 {
        Seq::empty()
    } else {
        let before = positions(outer.drop_last(), inner, outer_name, inner_name);
        let k = outer.len() - 1;
        if outer[k] == outer_name && inner[k] == inner_name {
            before.push(k)
        } else {
            before
        }
    }
}

/// The items at the given places, in the order of the places.
pub open spec fn select<V>(items: Seq<V>, places: Seq<int>) -> Seq<V> {
    places.map_values(|k: int| items[k])
}

/// The group of the items under both names.
pub open spec fn inner_group<V>(
    items: Seq<V>,
    outer: Seq<Seq<char>>,
    inner: Seq<Seq<char>>,
    outer_name: Seq<char>,
    inner_name: Seq<char>,
) -> GroupView<V> {
    GroupView {
        name: inner_name,
        members: select(items, positions(outer, inner, outer_name, inner_name)),
    }
}

/// The group of an outer name: one inner group for each inner name that
/// occurs with it.
pub open spec fn outer_group<V>(
    items: Seq<V>,
    outer: Seq<Seq<char>>,
    inner: Seq<Seq<char>>,
    outer_name: Seq<char>,
) -> GroupView<GroupView<V>> {
    GroupView {
        name: outer_name,
        members: names_under(outer, inner, outer_name).map_values(
            |inner_name: Seq<char>| inner_group(items, outer, inner, outer_name, inner_name),
        ),
    }
}

/// The grouping of a run of items, of which item `k` stands under the names
/// `outer[k]` and `inner[k]`: one outer group for each outer name.
pub open spec fn grouping<V>(items: Seq<V>, outer: Seq<Seq<char>>, inner: Seq<Seq<char>>) -> Seq<
    GroupView<GroupView<V>>,
> {
    distinct(outer).map_values(|outer_name: Seq<char>| outer_group(items, outer, inner, outer_name))
}

/// The grouping of a run of entries.
pub open spec fn grouped<T: View>(entries: Seq<Entry<T>>) -> Seq<GroupView<GroupView<T::V>>> {
    grouping(items(entries), outer_names(entries), inner_names(entries))
}

/// The place of the last occurrence of a name, or -1 where it does not
/// occur.
pub open spec fn last_position(names: Seq<Seq<char>>, name: Seq<char>) -> int
    decreases names.len(),
{
    if names.len() == 0 {
        -1
    } else if names.last() == name {
        names.len() - 1
    } else {
        last_position(names.drop_last(), name)
    }
}

/// What a run of pairs of a name and a value holds when a later pair
/// replaces an earlier one of the same name: each name once, by first
/// occurrence, with the value of its last pair.
pub open spec fn last_wins<V>(names: Seq<Seq<char>>, values: Seq<V>) -> Seq<(Seq<char>, V)> {
    distinct(names).map_values(|name: Seq<char>| (name, values[last_position(names, name)]))
}

/// A name is among the distinct names of a run exactly when it occurs in
/// the run.
pub proof fn lemma_distinct_contains(names: Seq<Seq<char>>, name: Seq<char>)
    ensures
        distinct(names).contains(name) <==> names.contains(name),
    decreases names.len(),
{
    if names.len() > 0 {
        let front = names.drop_last();
        let before = distinct(front);
        let all = distinct(names);
        lemma_distinct_contains(front, name);
        if names.contains(name) {
            let k = choose|k: int| 0 <= k < names.len() && names[k] == name;
            if k < front.len() {
                assert(front[k] == name);
                assert(front.contains(name));
                let j = choose|j: int| 0 <= j < before.len() && before[j] == name;
                assert(all[j] == name);
            } else if before.contains(name) {
                let j = choose|j: int| 0 <= j < before.len() && before[j] == name;
                assert(all[j] == name);
            } else {
                assert(all[before.len() as int] == name);
            }
        }
        if all.contains(name) {
            let j = choose|j: int| 0 <= j < all.len() && all[j] == name;
            if j < before.len() {
                assert(before[j] == name);
                assert(before.contains(name));
                let k = choose|k: int| 0 <= k < front.len() && front[k] == name;
                assert(names[k] == name);
            } else {
                assert(names[names.len() - 1] == name);
            }
        }
    }
}

/// No name is twice among the distinct names of a run, and they are no
/// more than the names of the run.
pub proof fn lemma_distinct_once(names: Seq<Seq<char>>)
    ensures
        distinct(names).no_duplicates(),
        distinct(names).len() <= names.len(),
    decreases names.len(),
{
    if names.len() > 0 {
        let front = names.drop_last();
        let before = distinct(front);
        let all = distinct(names);
        lemma_distinct_once(front);
        assert forall|i: int, j: int| 0 <= i < all.len() && 0 <= j < all.len() && i != j implies all[i]
            != all[j] by {
            if i < before.len() && j < before.len() {
            } else if i < before.len() {
                assert(before[i] == all[i]);
                assert(before.contains(all[i]));
            } else {
                assert(before[j] == all[j]);
                assert(before.contains(all[j]));
            }
        }
    }
}

/// The place of the last occurrence of a name that occurs lies in the run
/// and holds the name, and the name does not occur after it.
pub proof fn lemma_last_position(names: Seq<Seq<char>>, name: Seq<char>)
    ensures
        names.contains(name) ==> 0 <= last_position(names, name) < names.len() && names[last_position(
            names,
            name,
        )] == name,
        !names.contains(name) ==> last_position(names, name) == -1,
        forall|k: int| last_position(names, name) < k < names.len() ==> names[k] != name,
    decreases names.len(),
{
    if names.len() > 0 {
        let front = names.drop_last();
        lemma_last_position(front, name);
        if names.last() != name {
            if names.contains(name) {
                let k = choose|k: int| 0 <= k < names.len() && names[k] == name;
                assert(front[k] == name);
            }
            if front.contains(name) {
                let k = choose|k: int| 0 <= k < front.len() && front[k] == name;
                assert(names[k] == name);
            }
            assert forall|k: int| last_position(names, name) < k < names.len() implies names[k]
                != name by {
                if k < front.len() {
                    assert(front[k] == names[k]);
                }
            }
        } else {
            assert(names[names.len() - 1] == name);
        }
    }
}

/// The places under two names lie in the run, rise strictly, and are
/// exactly the places of the items that stand under both names.
pub proof fn lemma_positions(
    outer: Seq<Seq<char>>,
    inner: Seq<Seq<char>>,
    outer_name: Seq<char>,
    inner_name: Seq<char>,
)
    ensures
        forall|j: int|
            0 <= j < positions(outer, inner, outer_name, inner_name).len() ==> {
                let k = #[trigger] positions(outer, inner, outer_name, inner_name)[j];
                0 <= k < outer.len() && outer[k] == outer_name && inner[k] == inner_name
            },
        forall|i: int, j: int|
            0 <= i < j < positions(outer, inner, outer_name, inner_name).len() ==> positions(
                outer,
                inner,
                outer_name,
                inner_name,
            )[i] < positions(outer, inner, outer_name, inner_name)[j],
        forall|k: int|
            0 <= k < outer.len() && outer[k] == outer_name && inner[k] == inner_name ==> positions(
                outer,
                inner,
                outer_name,
                inner_name,
            ).contains(k),
    decreases outer.len(),
{
    if outer.len() > 0 {
        let front = outer.drop_last();
        let before = positions(front, inner, outer_name, inner_name);
        let all = positions(outer, inner, outer_name, inner_name);
        lemma_positions(front, inner, outer_name, inner_name);
        assert forall|j: int| 0 <= j < all.len() implies {
            let k = #[trigger] all[j];
            0 <= k < outer.len() && outer[k] == outer_name && inner[k] == inner_name
        } by {
            if j < before.len() {
                let k = before[j];
                assert(front[k] == outer[k]);
            }
        }
        assert forall|i: int, j: int| 0 <= i < j < all.len() implies all[i] < all[j] by {
            if j < before.len() {
            } else {
                let k = before[i];
                assert(0 <= k < front.len());
            }
        }
        assert forall|k: int|
            0 <= k < outer.len() && outer[k] == outer_name && inner[k]
                == inner_name implies all.contains(k) by {
            if k < front.len() {
                assert(front[k] == outer[k]);
                assert(before.contains(k));
                let j = choose|j: int| 0 <= j < before.len() && before[j] == k;
                assert(all[j] == k);
            } else {
                assert(all[before.len() as int] == k);
            }
        }
    }
}

/// An inner name is among the names under an outer name exactly when some
/// item stands under both.
pub proof fn lemma_names_under_contains(
    outer: Seq<Seq<char>>,
    inner: Seq<Seq<char>>,
    name: Seq<char>,
    inner_name: Seq<char>,
)
    ensures
        names_under(outer, inner, name).contains(inner_name) <==> exists|k: int|
            0 <= k < outer.len() && outer[k] == name && #[trigger] inner[k] == inner_name,
    decreases outer.len(),
{
    if outer.len() > 0 {
        let front = outer.drop_last();
        let before = names_under(front, inner, name);
        let all = names_under(outer, inner, name);
        let last = outer.len() - 1;
        lemma_names_under_contains(front, inner, name, inner_name);
        if all.contains(inner_name) {
            let j = choose|j: int| 0 <= j < all.len() && all[j] == inner_name;
            if j < before.len() {
                assert(before[j] == inner_name);
                assert(before.contains(inner_name));
                let k = choose|k: int|
                    0 <= k < front.len() && front[k] == name && #[trigger] inner[k] == inner_name;
                assert(outer[k] == name && inner[k] == inner_name);
            } else {
                assert(outer[last] == name && inner[last] == inner_name);
            }
        }
        if exists|k: int|
            0 <= k < outer.len() && outer[k] == name && #[trigger] inner[k] == inner_name {
            let k = choose|k: int|
                0 <= k < outer.len() && outer[k] == name && #[trigger] inner[k] == inner_name;
            if k < front.len() {
                assert(front[k] == name && inner[k] == inner_name);
                assert(before.contains(inner_name));
                let j = choose|j: int| 0 <= j < before.len() && before[j] == inner_name;
                assert(all[j] == inner_name);
            } else if before.contains(inner_name) {
                let j = choose|j: int| 0 <= j < before.len() && before[j] == inner_name;
                assert(all[j] == inner_name);
            } else {
                assert(all[before.len() as int] == inner_name);
            }
        }
    }
}

/// No name is twice among the names under an outer name.
pub proof fn lemma_names_under_once(outer: Seq<Seq<char>>, inner: Seq<Seq<char>>, name: Seq<char>)
    ensures
        names_under(outer, inner, name).no_duplicates(),
    decreases outer.len(),
{
    if outer.len() > 0 {
        let front = outer.drop_last();
        let before = names_under(front, inner, name);
        let all = names_under(outer, inner, name);
        lemma_names_under_once(front, inner, name);
        assert forall|i: int, j: int| 0 <= i < all.len() && 0 <= j < all.len() && i != j implies all[i]
            != all[j] by {
            if i < before.len() && j < before.len() {
            } else if i < before.len() {
                assert(before[i] == all[i]);
                assert(before.contains(all[i]));
            } else {
                assert(before[j] == all[j]);
                assert(before.contains(all[j]));
            }
        }
    }
}

/// Whether a name is among the names.
pub fn contains_name(names: &Vec<String>, name: &String) -> (found: bool)
    ensures
        found == texts(names@).contains(name@),
{
    let mut i: usize = 0;
    while i < names.len()
        invariant
            0 <= i <= names.len(),
            forall|j: int| 0 <= j < i ==> texts(names@)[j] != name@,
        decreases names.len() - i,
    {
        if names[i] == *name {
            assert(texts(names@)[i as int] == name@);
            return true;
        }
        i = i + 1;
    }
    false
}

/// The names without their repetitions, by first occurrence.
pub fn distinct_names(names: &Vec<String>) -> (firsts: Vec<String>)
    ensures
        texts(firsts@) == distinct(texts(names@)),
{
    let ghost all = texts(names@);
    let mut firsts: Vec<String> = Vec::new();
    let mut i: usize = 0;
    proof {
        assert(all.take(0).len() == 0);
        assert(texts(firsts@) =~= Seq::empty());
    }
    while i < names.len()
        invariant
            0 <= i <= names.len(),
            all == texts(names@),
            texts(firsts@) == distinct(all.take(i as int)),
        decreases names.len() - i,
    {
        proof {
            assert(all.take(i as int + 1).drop_last() == all.take(i as int));
            assert(all.take(i as int + 1).last() == names@[i as int]@);
        }
        if !contains_name(&firsts, &names[i]) {
            let ghost before = texts(firsts@);
            let copy = names[i].duplicate();
            firsts.push(copy);
            proof {
                assert(texts(firsts@) =~= before.push(copy@));
            }
        }
        i = i + 1;
    }
    proof {
        assert(all.take(i as int) == all);
    }
    firsts
}

/// The outer names of the entries without their repetitions, by first
/// occurrence.
pub fn distinct_outer_names<T>(entries: &Vec<Entry<T>>) -> (firsts: Vec<String>)
    ensures
        texts(firsts@) == distinct(outer_names(entries@)),
{
    let ghost outer = outer_names(entries@);
    let mut firsts: Vec<String> = Vec::new();
    let mut i: usize = 0;
    proof {
        assert(outer.take(0).len() == 0);
        assert(texts(firsts@) =~= Seq::empty());
    }
    while i < entries.len()
        invariant
            0 <= i <= entries.len(),
            outer == outer_names(entries@),
            texts(firsts@) == distinct(outer.take(i as int)),
        decreases entries.len() - i,
    {
        proof {
            assert(outer.take(i as int + 1).drop_last() == outer.take(i as int));
            assert(outer.take(i as int + 1).last() == entries@[i as int].outer@);
        }
        if !contains_name(&firsts, &entries[i].outer) {
            let ghost before = texts(firsts@);
            let copy = entries[i].outer.duplicate();
            firsts.push(copy);
            proof {
                assert(texts(firsts@) =~= before.push(copy@));
            }
        }
        i = i + 1;
    }
    proof {
        assert(outer.take(i as int) == outer);
    }
    firsts
}

/// The inner names that occur with the outer name `name`, without their
/// repetitions, by first occurrence.
pub fn names_under_name<T>(entries: &Vec<Entry<T>>, name: &String) -> (firsts: Vec<String>)
    ensures
        texts(firsts@) == names_under(outer_names(entries@), inner_names(entries@), name@),
{
    let ghost outer = outer_names(entries@);
    let ghost inner = inner_names(entries@);
    let mut firsts: Vec<String> = Vec::new();
    let mut i: usize = 0;
    proof {
        assert(outer.take(0).len() == 0);
        assert(texts(firsts@) =~= Seq::empty());
    }
    while i < entries.len()
        invariant
            0 <= i <= entries.len(),
            outer == outer_names(entries@),
            inner == inner_names(entries@),
            texts(firsts@) == names_under(outer.take(i as int), inner, name@),
        decreases entries.len() - i,
    {
        proof {
            assert(outer.take(i as int + 1).drop_last() == outer.take(i as int));
            assert(outer.take(i as int + 1)[i as int] == entries@[i as int].outer@);
            assert(inner[i as int] == entries@[i as int].inner@);
        }
        if entries[i].outer == *name && !contains_name(&firsts, &entries[i].inner) {
            let ghost before = texts(firsts@);
            let copy = entries[i].inner.duplicate();
            firsts.push(copy);
            proof {
                assert(texts(firsts@) =~= before.push(copy@));
            }
        }
        i = i + 1;
    }
    proof {
        assert(outer.take(i as int) == outer);
    }
    firsts
}

/// Copies of the items that stand under both names, in the order in which
/// they came.
pub fn members_under<T: Duplicate>(
    entries: &Vec<Entry<T>>,
    outer_name: &String,
    inner_name: &String,
) -> (members: Vec<T>)
    ensures
        views(members@) == select(
            items(entries@),
            positions(outer_names(entries@), inner_names(entries@), outer_name@, inner_name@),
        ),
{
    let ghost outer = outer_names(entries@);
    let ghost inner = inner_names(entries@);
    let ghost all = items(entries@);
    let mut members: Vec<T> = Vec::new();
    let mut i: usize = 0;
    proof {
        assert(outer.take(0).len() == 0);
        assert(views(members@) =~= select(all, Seq::<int>::empty()));
    }
    while i < entries.len()
        invariant
            0 <= i <= entries.len(),
            outer == outer_names(entries@),
            inner == inner_names(entries@),
            all == items(entries@),
            views(members@) == select(
                all,
                positions(outer.take(i as int), inner, outer_name@, inner_name@),
            ),
        decreases entries.len() - i,
    {
        let ghost before = positions(outer.take(i as int), inner, outer_name@, inner_name@);
        proof {
            assert(outer.take(i as int + 1).drop_last() == outer.take(i as int));
            assert(outer.take(i as int + 1)[i as int] == entries@[i as int].outer@);
            assert(inner[i as int] == entries@[i as int].inner@);
        }
        if entries[i].outer == *outer_name && entries[i].inner == *inner_name {
            let ghost held = views(members@);
            let copy = entries[i].item.duplicate();
            members.push(copy);
            proof {
                assert(views(members@) =~= held.push(copy@));
                assert(select(all, before.push(i as int)) =~= select(all, before).push(
                    all[i as int],
                ));
            }
        }
        i = i + 1;
    }
    proof {
        assert(outer.take(i as int) == outer);
    }
    members
}

/// Groups a run of entries by their outer and then by their inner names.
pub fn group<T: Duplicate>(entries: &Vec<Entry<T>>) -> (groups: Vec<Group<Group<T>>>)
    ensures
        views(groups@) == grouped(entries@),
{
    let ghost outer = outer_names(entries@);
    let ghost inner = inner_names(entries@);
    let ghost all = items(entries@);
    let firsts = distinct_outer_names(entries);
    let mut groups: Vec<Group<Group<T>>> = Vec::new();
    let mut g: usize = 0;
    while g < firsts.len()
        invariant
            0 <= g <= firsts.len(),
            outer == outer_names(entries@),
            inner == inner_names(entries@),
            all == items(entries@),
            texts(firsts@) == distinct(outer),
            groups.len() == g,
            forall|j: int|
                0 <= j < g ==> (#[trigger] groups@[j])@ == outer_group(
                    all,
                    outer,
                    inner,
                    distinct(outer)[j],
                ),
        decreases firsts.len() - g,
    {
        let outer_name = &firsts[g];
        let ghost o = outer_name@;
        proof {
            assert(texts(firsts@)[g as int] == o);
        }
        let seconds = names_under_name(entries, outer_name);
        let mut suites: Vec<Group<T>> = Vec::new();
        let mut h: usize = 0;
        while h < seconds.len()
            invariant
                0 <= h <= seconds.len(),
                outer == outer_names(entries@),
                inner == inner_names(entries@),
                all == items(entries@),
                o == outer_name@,
                texts(seconds@) == names_under(outer, inner, o),
                suites.len() == h,
                forall|j: int|
                    0 <= j < h ==> (#[trigger] suites@[j])@ == inner_group(
                        all,
                        outer,
                        inner,
                        o,
                        names_under(outer, inner, o)[j],
                    ),
            decreases seconds.len() - h,
        {
            let inner_name = &seconds[h];
            proof {
                assert(texts(seconds@)[h as int] == inner_name@);
            }
            let members = members_under(entries, outer_name, inner_name);
            let suite = Group { name: inner_name.duplicate(), members };
            suites.push(suite);
            h = h + 1;
        }
        let ghost held = suites@;
        let outer_copy = outer_name.duplicate();
        let group = Group { name: outer_copy, members: suites };
        proof {
            let want = outer_group(all, outer, inner, o);
            assert(views(held).len() == want.members.len());
            assert forall|j: int| 0 <= j < held.len() implies views(held)[j]
                == want.members[j] by {
                assert(views(held)[j] == held[j]@);
            }
            assert(views(held) =~= want.members);
            assert(group@ == want);
        }
        groups.push(group);
        g = g + 1;
    }
    proof {
        let want = grouped(entries@);
        assert(views(groups@).len() == want.len());
        assert forall|j: int| 0 <= j < groups.len() implies views(groups@)[j] == want[j] by {
            assert(views(groups@)[j] == groups@[j]@);
        }
        assert(views(groups@) =~= want);
    }
    groups
}

/// Folds a run of pairs of a name and a value into one pair for each name,
/// by first occurrence, with a copy of the value of its last pair.
pub fn fold_last_wins<V: Duplicate>(pairs: &Vec<(String, V)>) -> (folded: Vec<(String, V)>)
    ensures
        views(folded@) == last_wins(pair_names(pairs@), pair_values(pairs@)),
{
    let ghost all = pair_names(pairs@);
    let ghost values = pair_values(pairs@);
    let mut names: Vec<String> = Vec::new();
    let mut k: usize = 0;
    while k < pairs.len()
        invariant
            0 <= k <= pairs.len(),
            names.len() == k,
            forall|j: int| 0 <= j < k ==> (#[trigger] names@[j])@ == pairs@[j].0@,
        decreases pairs.len() - k,
    {
        names.push(pairs[k].0.duplicate());
        k = k + 1;
    }
    proof {
        assert(texts(names@) =~= all);
    }
    let firsts = distinct_names(&names);
    let mut folded: Vec<(String, V)> = Vec::new();
    let mut g: usize = 0;
    while g < firsts.len()
        invariant
            0 <= g <= firsts.len(),
            names.len() == pairs.len(),
            all == pair_names(pairs@),
            all == texts(names@),
            values == pair_values(pairs@),
            texts(firsts@) == distinct(all),
            folded.len() == g,
            forall|j: int|
                0 <= j < g ==> (#[trigger] folded@[j])@ == (
                    distinct(all)[j],
                    values[last_position(all, distinct(all)[j])],
                ),
        decreases firsts.len() - g,
    {
        let name = &firsts[g];
        proof {
            assert(texts(firsts@)[g as int] == name@);
            assert(distinct(all).contains(name@));
            lemma_distinct_contains(all, name@);
            lemma_last_position(all, name@);
        }
        let mut last: usize = 0;
        let mut i: usize = 0;
        proof {
            assert(all.take(0).len() == 0);
        }
        while i < names.len()
            invariant
                0 <= i <= names.len(),
                all == texts(names@),
                last as int == if last_position(all.take(i as int), name@) < 0 {
                    0
                } else {
                    last_position(all.take(i as int), name@)
                },
            decreases names.len() - i,
        {
            proof {
                assert(all.take(i as int + 1).drop_last() == all.take(i as int));
                assert(all.take(i as int + 1).last() == names@[i as int]@);
            }
            if names[i] == *name {
                last = i;
            }
            i = i + 1;
        }
        proof {
            assert(all.take(i as int) == all);
            assert(values[last as int] == pairs@[last as int].1@);
        }
        let pair = (name.duplicate(), pairs[last].1.duplicate());
        folded.push(pair);
        g = g + 1;
    }
    proof {
        let want = last_wins(all, values);
        assert(views(folded@).len() == want.len());
        assert forall|j: int| 0 <= j < folded.len() implies views(folded@)[j] == want[j] by {
            assert(views(folded@)[j] == folded@[j]@);
        }
        assert(views(folded@) =~= want);
    }
    folded
}

/// Every item has its place in the grouping: its outer name is among the
/// outer names, its inner name among the names under that, and its place
/// among the places under both.
pub proof fn law_grouping_covers(outer: Seq<Seq<char>>, inner: Seq<Seq<char>>, k: int)
    requires
        0 <= k < outer.len(),
        outer.len() == inner.len(),
    ensures
        distinct(outer).contains(outer[k]),
        names_under(outer, inner, outer[k]).contains(inner[k]),
        positions(outer, inner, outer[k], inner[k]).contains(k),
{
    assert(outer.contains(outer[k]));
    lemma_distinct_contains(outer, outer[k]);
    lemma_names_under_contains(outer, inner, outer[k], inner[k]);
    lemma_positions(outer, inner, outer[k], inner[k]);
}

/// No name occurs twice at its level, and no group is empty.
pub proof fn law_grouping_names_once(
    outer: Seq<Seq<char>>,
    inner: Seq<Seq<char>>,
    outer_name: Seq<char>,
    inner_name: Seq<char>,
)
    requires
        outer.len() == inner.len(),
    ensures
        distinct(outer).no_duplicates(),
        names_under(outer, inner, outer_name).no_duplicates(),
        distinct(outer).contains(outer_name) ==> names_under(outer, inner, outer_name).len() > 0,
        names_under(outer, inner, outer_name).contains(inner_name) ==> positions(
            outer,
            inner,
            outer_name,
            inner_name,
        ).len() > 0,
{
    lemma_distinct_once(outer);
    lemma_distinct_contains(outer, outer_name);
    lemma_names_under_once(outer, inner, outer_name);
    lemma_names_under_contains(outer, inner, outer_name, inner_name);
    lemma_positions(outer, inner, outer_name, inner_name);
    if distinct(outer).contains(outer_name) {
        let k = choose|k: int| 0 <= k < outer.len() && outer[k] == outer_name;
        lemma_names_under_contains(outer, inner, outer_name, inner[k]);
        assert(outer[k] == outer_name && inner[k] == inner[k]);
        assert(names_under(outer, inner, outer_name).contains(inner[k]));
    }
    if names_under(outer, inner, outer_name).contains(inner_name) {
        let k = choose|k: int|
            0 <= k < outer.len() && outer[k] == outer_name && #[trigger] inner[k] == inner_name;
        assert(positions(outer, inner, outer_name, inner_name).contains(k));
    }
}

/// The last write wins: after one more pair, its name holds its value, and
/// every other name holds what it held before.
pub proof fn law_last_write_wins<V>(
    names: Seq<Seq<char>>,
    values: Seq<V>,
    name: Seq<char>,
    value: V,
    other: Seq<char>,
)
    requires
        names.len() == values.len(),
        other != name,
    ensures
        values.push(value)[last_position(names.push(name), name)] == value,
        last_position(names.push(name), other) == last_position(names, other),
        names.contains(other) ==> values.push(value)[last_position(names.push(name), other)]
            == values[last_position(names, other)],
{
    assert(names.push(name).drop_last() == names);
    lemma_last_position(names, other);
}

} // verus!
