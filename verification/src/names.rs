//! Lists of optional names: whether a name occurs twice.

use crate::views::lemma_deep_view_index;
use vstd::prelude::*;

verus! {

/// Whether an item of the list carries `name`.
pub open spec fn occurs(names: Seq<Option<Seq<char>>>, name: Seq<char>) -> bool {
    exists|i: int| 0 <= i < names.len() && #[trigger] names[i] == Some(name)
}

/// Whether no two items of the list carry the same name.
pub open spec fn distinct(names: Seq<Option<Seq<char>>>) -> bool {
    forall|i: int, j: int|
        0 <= i < j < names.len() && (#[trigger] names[i]) is Some ==> names[i] != #[trigger] names[j]
}

/// The first name of the list that an earlier item carries already.
pub open spec fn first_repeated(names: Seq<Option<Seq<char>>>) -> Option<Seq<char>>
    decreases names.len(),
{
    if names.len() == 0 {
        None
    } else {
        match first_repeated(names.drop_last()) {
            Some(name) => Some(name),
            None => match names.last() {
                Some(name) => if occurs(names.drop_last(), name) {
                    Some(name)
                } else {
                    None
                },
                None => None,
            },
        }
    }
}

/// A list has no repeated name exactly where its names are distinct.
pub proof fn lemma_first_repeated(names: Seq<Option<Seq<char>>>)
    ensures
        first_repeated(names) is None <==> distinct(names),
    decreases names.len(),
{
    if names.len() > 0 {
        let front = names.drop_last();
        lemma_first_repeated(front);
        if first_repeated(names) is None {
            assert forall|i: int, j: int|
                0 <= i < j < names.len() && (#[trigger] names[i]) is Some implies names[i]
                != #[trigger] names[j] by {
                if j < names.len() - 1 {
                    assert(front[i] == names[i]);
                    assert(front[j] == names[j]);
                } else if names[j] is Some {
                    if names[i] == names[j] {
                        assert(front[i] == Some(names.last()->0));
                    }
                }
            }
        } else if first_repeated(front) is Some {
            let (i, j) = choose|i: int, j: int|
                0 <= i < j < front.len() && (#[trigger] front[i]) is Some && front[i]
                    == #[trigger] front[j];
            assert(names[i] == front[i]);
            assert(names[j] == front[j]);
        } else {
            let name = names.last()->0;
            let i = choose|i: int| 0 <= i < front.len() && #[trigger] front[i] == Some(name);
            assert(names[i] == front[i]);
            assert(names[names.len() - 1] == Some(name));
        }
    }
}

/// Adding a name that does not occur yet keeps the names distinct; so
/// does adding no name.
pub proof fn lemma_distinct_push(names: Seq<Option<Seq<char>>>, name: Option<Seq<char>>)
    requires
        distinct(names),
        name matches Some(n) ==> !occurs(names, n),
    ensures
        distinct(names.push(name)),
{
    let all = names.push(name);
    assert forall|i: int, j: int|
        0 <= i < j < all.len() && (#[trigger] all[i]) is Some implies all[i] != #[trigger] all[j] by {
        if j < names.len() {
            assert(names[i] == all[i]);
            assert(names[j] == all[j]);
        } else {
            assert(names[i] == all[i]);
        }
    }
}

/// Whether an item of the list carries `name`.
pub fn has_name(names: &Vec<Option<String>>, name: &String) -> (r: bool)
    ensures
        r == occurs(names.deep_view(), name@),
{
    proof {
        lemma_deep_view_index(*names);
    }
    let mut i: usize = 0;
    while i < names.len()
        invariant
            i <= names.len(),
            names.deep_view().len() == names.len(),
            forall|k: int| 0 <= k < i ==> #[trigger] names.deep_view()[k] != Some(name@),
        decreases names.len() - i,
    {
        proof {
            lemma_deep_view_index(*names);
        }
        let same = match &names[i] {
            Some(n) => *n == *name,
            None => false,
        };
        if same {
            assert(names.deep_view()[i as int] == Some(name@));
            return true;
        }
        i = i + 1;
    }
    false
}

/// The first name of the list that an earlier item carries already.
pub fn find_repeated(names: &Vec<Option<String>>) -> (r: Option<String>)
    ensures
        r.deep_view() == first_repeated(names.deep_view()),
{
    let ghost all = names.deep_view();
    proof {
        lemma_deep_view_index(*names);
        assert(all.take(0) =~= Seq::empty());
    }
    let mut j: usize = 0;
    while j < names.len()
        invariant
            j <= names.len(),
            all == names.deep_view(),
            all.len() == names.len(),
            first_repeated(all.take(j as int)) is None,
        decreases names.len() - j,
    {
        let ghost front = all.take(j as int);
        proof {
            lemma_deep_view_index(*names);
            assert(all.take(j + 1).drop_last() =~= front);
            assert(all.take(j + 1).last() == names@[j as int].deep_view());
        }
        match &names[j] {
            Some(name) => {
                let mut i: usize = 0;
                while i < j
                    invariant
                        i <= j,
                        j < names.len(),
                        all == names.deep_view(),
                        all.len() == names.len(),
                        front == all.take(j as int),
                        first_repeated(front) is None,
                        all[j as int] == Some(name@),
                        forall|k: int| 0 <= k < i ==> #[trigger] front[k] != Some(name@),
                    decreases j - i,
                {
                    proof {
                        lemma_deep_view_index(*names);
                    }
                    let same = match &names[i] {
                        Some(n) => *n == *name,
                        None => false,
                    };
                    if same {
                        proof {
                            assert(front[i as int] == Some(name@));
                            assert(occurs(front, name@));
                            assert(all.take(j + 1).drop_last() =~= front);
                            assert(all.take(j + 1).last() == all[j as int]);
                            lemma_first_repeated_prefix(all, j + 1);
                        }
                        return Some(name.clone());
                    }
                    i = i + 1;
                }
                assert(!occurs(front, name@));
            },
            None => {},
        }
        j = j + 1;
    }
    proof {
        assert(all.take(names.len() as int) =~= all);
    }
    None
}

proof fn lemma_first_repeated_prefix(names: Seq<Option<Seq<char>>>, n: int)
    requires
        0 <= n <= names.len(),
        first_repeated(names.take(n)) is Some,
    ensures
        first_repeated(names) == first_repeated(names.take(n)),
    decreases names.len() - n,
{
    if n < names.len() {
        assert(names.take(n + 1).drop_last() =~= names.take(n));
        lemma_first_repeated_prefix(names, n + 1);
    } else {
        assert(names.take(n) =~= names);
    }
}

} // verus!
