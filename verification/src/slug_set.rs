//! Sets of slugs.

use crate::slug::Slug;
use vstd::prelude::*;

verus! {

/// The set of the paths that the slugs of `items` read as.
pub open spec fn paths_of(items: Seq<Slug>) -> Set<Seq<char>> {
    Set::new(|path: Seq<char>| exists|i: int| 0 <= i < items.len() && #[trigger] items[i]@ == path)
}

/// No two slugs of `items` read as the same path.
pub open spec fn distinct(items: Seq<Slug>) -> bool {
    forall|i: int, j: int| 0 <= i < j < items.len() ==> #[trigger] items[i]@ != #[trigger] items[j]@
}

/// A set of slugs. Two slugs are the same member where they read as the
/// same path, whatever slashes they carry at their edges.
///
/// The members are kept in a vector, in the order in which they came, and
/// membership is a search along it. A hash set would find a member faster,
/// but what is known of one rests on the hashing of its keys agreeing with
/// their equality, and that is known of integers and the like, not of a type
/// that compares by a method of its own as [`Slug`] does. Here everything
/// follows from [`Slug::same_path`] and the invariant that no path occurs
/// twice.
#[derive(Debug)]
pub struct SlugSet {
    items: Vec<Slug>,
}

impl View for SlugSet {
    type V = Set<Seq<char>>;

    closed spec fn view(&self) -> Set<Seq<char>> {
        paths_of(self.items@)
    }
}

impl SlugSet {
    #[verifier::type_invariant]
    closed spec fn inv(&self) -> bool {
        distinct(self.items@)
    }

    /// The members, in the order in which they came.
    pub closed spec fn members(&self) -> Seq<Slug> {
        self.items@
    }

    /// The empty set.
    pub fn new() -> (r: SlugSet)
        ensures
            r@ == Set::<Seq<char>>::empty(),
            r.members().len() == 0,
    {
        let r = SlugSet { items: Vec::new() };
        assert(r@ =~= Set::<Seq<char>>::empty());
        r
    }

    /// The number of members.
    pub fn len(&self) -> (r: usize)
        ensures
            r == self.members().len(),
            distinct(self.members()),
            self@ == paths_of(self.members()),
    {
        proof {
            use_type_invariant(self);
        }
        self.items.len()
    }

    /// The member of index `i`.
    pub fn get(&self, i: usize) -> (r: &Slug)
        requires
            i < self.members().len(),
        ensures
            *r == self.members()[i as int],
    {
        &self.items[i]
    }

    /// Whether a slug that reads as the same path as `slug` is a member.
    pub fn contains(&self, slug: &Slug) -> (r: bool)
        ensures
            r == self@.contains(slug@),
    {
        let mut i: usize = 0;
        while i < self.items.len()
            invariant
                0 <= i <= self.items.len(),
                forall|k: int| 0 <= k < i ==> self.items@[k]@ != slug@,
            decreases self.items.len() - i,
        {
            if self.items[i].same_path(slug) {
                return true;
            }
            i += 1;
        }
        false
    }

    /// Adds `slug` unless a slug that reads as the same path is a member
    /// already. Says whether it was added.
    pub fn insert(&mut self, slug: Slug) -> (r: bool)
        ensures
            r == !old(self)@.contains(slug@),
            final(self)@ == old(self)@.insert(slug@),
            final(self).members() == if r {
                old(self).members().push(slug)
            } else {
                old(self).members()
            },
    {
        proof {
            use_type_invariant(&*self);
        }
        if self.contains(&slug) {
            assert(self@ =~= self@.insert(slug@));
            false
        } else {
            let ghost before = self.items@;
            let mut taken = SlugSet::new();
            std::mem::swap(self, &mut taken);
            let mut items = taken.items;
            items.push(slug);
            *self = SlugSet { items };
            proof {
                assert forall|path: Seq<char>| paths_of(self.items@).contains(path) == paths_of(
                    before,
                ).insert(slug@).contains(path) by {
                    if paths_of(before).contains(path) {
                        let i = choose|i: int| 0 <= i < before.len() && before[i]@ == path;
                        assert(self.items@[i]@ == path);
                    }
                    if path == slug@ {
                        assert(self.items@[before.len() as int]@ == path);
                    }
                }
                assert(self@ =~= old(self)@.insert(slug@));
            }
            true
        }
    }

    /// The set of the slugs of `slugs`.
    pub fn from_vec(slugs: Vec<Slug>) -> (r: SlugSet)
        ensures
            r@ == paths_of(slugs@),
    {
        let mut set = SlugSet::new();
        let mut i: usize = 0;
        while i < slugs.len()
            invariant
                0 <= i <= slugs.len(),
                set@ == paths_of(slugs@.take(i as int)),
            decreases slugs.len() - i,
        {
            set.insert(slugs[i].clone());
            proof {
                let s0 = slugs@.take(i as int);
                let s1 = slugs@.take(i + 1);
                assert forall|path: Seq<char>| paths_of(s1).contains(path) == paths_of(s0).insert(
                    slugs@[i as int]@,
                ).contains(path) by {
                    if paths_of(s0).contains(path) {
                        let k = choose|k: int| 0 <= k < s0.len() && s0[k]@ == path;
                        assert(s1[k]@ == path);
                    }
                    if path == slugs@[i as int]@ {
                        assert(s1[i as int]@ == path);
                    }
                    if paths_of(s1).contains(path) {
                        let k = choose|k: int| 0 <= k < s1.len() && s1[k]@ == path;
                        if k < i {
                            assert(s0[k]@ == path);
                        }
                    }
                }
                assert(paths_of(s1) =~= paths_of(s0).insert(slugs@[i as int]@));
            }
            i += 1;
        }
        proof {
            assert(slugs@.take(slugs.len() as int) == slugs@);
        }
        set
    }

    /// The members that are no members of `other`, in the order in which
    /// they came.
    pub fn difference(&self, other: &SlugSet) -> (r: Vec<Slug>)
        ensures
            paths_of(r@) == self@.difference(other@),
            distinct(r@),
    {
        proof {
            use_type_invariant(self);
        }
        let mut out: Vec<Slug> = Vec::new();
        let ghost mut picked: Seq<int> = Seq::empty();
        let mut i: usize = 0;
        while i < self.items.len()
            invariant
                0 <= i <= self.items.len(),
                distinct(self.items@),
                picked.len() == out.len(),
                forall|k: int| 0 <= k < picked.len() ==> 0 <= #[trigger] picked[k] < i && out@[k]
                    == self.items@[picked[k]],
                forall|k: int, l: int| 0 <= k < l < picked.len() ==> picked[k] < picked[l],
                forall|j: int|
                    0 <= j < i && !other@.contains(#[trigger] self.items@[j]@) ==> picked.contains(
                        j,
                    ),
                forall|k: int| 0 <= k < out.len() ==> !other@.contains(#[trigger] out@[k]@),
            decreases self.items.len() - i,
        {
            if !other.contains(&self.items[i]) {
                out.push(self.items[i].clone());
                proof {
                    let old_picked = picked;
                    picked = picked.push(i as int);
                    assert forall|j: int|
                        0 <= j < i + 1 && !other@.contains(
                            #[trigger] self.items@[j]@,
                        ) implies picked.contains(j) by {
                        if j < i {
                            let k = choose|k: int| 0 <= k < old_picked.len() && old_picked[k] == j;
                            assert(picked[k] == j);
                        } else {
                            assert(picked[old_picked.len() as int] == j);
                        }
                    }
                }
            }
            i += 1;
        }
        proof {
            assert forall|path: Seq<char>| paths_of(out@).contains(path) == self@.difference(
                other@,
            ).contains(path) by {
                if paths_of(out@).contains(path) {
                    let k = choose|k: int| 0 <= k < out.len() && out@[k]@ == path;
                    assert(self.items@[picked[k]]@ == path);
                }
                if self@.contains(path) && !other@.contains(path) {
                    let j = choose|j: int| 0 <= j < self.items.len() && self.items@[j]@ == path;
                    let k = choose|k: int| 0 <= k < picked.len() && picked[k] == j;
                    assert(out@[k]@ == path);
                }
            }
            assert(paths_of(out@) =~= self@.difference(other@));
            assert forall|k: int, l: int| 0 <= k < l < out.len() implies #[trigger] out@[k]@
                != #[trigger] out@[l]@ by {
                assert(picked[k] < picked[l]);
            }
        }
        out
    }
}

} // verus!
