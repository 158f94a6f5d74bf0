//! The order of the packages in the list of licenses: the software's own
//! package first, the others by their identifiers.

use crate::license::{package_views, PackageLicenseInfo, PackageView};
use crate::text::{chars_of, same_text};
use vstd::prelude::*;

verus! {

/// Whether `a` comes before `b`, or is `b`, in the order of texts: by their
/// first characters that differ, a text before every longer text that
/// starts with it.
pub open spec fn text_le(a: Seq<char>, b: Seq<char>) -> bool
    decreases a.len(),
{
    if a.len() == 0 {
        true
    } else if b.len() == 0 {
        false
    } else if a[0] != b[0] {
        (a[0] as u32) < (b[0] as u32)
    } else {
        text_le(a.skip(1), b.skip(1))
    }
}

/// Of two texts, one comes before the other or they are the same.
pub proof fn lemma_text_le_total(a: Seq<char>, b: Seq<char>)
    ensures
        text_le(a, b) || text_le(b, a),
    decreases a.len(),
{
    if a.len() > 0 && b.len() > 0 {
        if a[0] == b[0] {
            lemma_text_le_total(a.skip(1), b.skip(1));
        } else {
            vstd::utf8::char_u32_cast(a[0], a[0] as u32);
            vstd::utf8::char_u32_cast(b[0], b[0] as u32);
        }
    }
}

/// What comes before a text comes before everything after it.
pub proof fn lemma_text_le_transitive(a: Seq<char>, b: Seq<char>, c: Seq<char>)
    requires
        text_le(a, b),
        text_le(b, c),
    ensures
        text_le(a, c),
    decreases a.len(),
{
    if a.len() > 0 && b.len() > 0 && c.len() > 0 && a[0] == b[0] && b[0] == c[0] {
        lemma_text_le_transitive(a.skip(1), b.skip(1), c.skip(1));
    }
}

/// Whether the packages stand in the order of their identifiers.
pub open spec fn ordered(packages: Seq<PackageView>) -> bool {
    forall|i: int, j: int|
        0 <= i < j < packages.len() ==> text_le(
            (#[trigger] packages[i]).id,
            (#[trigger] packages[j]).id,
        )
}

/// Where a package goes among ordered packages: behind the last one that
/// does not come after it, looking from `from` on.
pub open spec fn place(packages: Seq<PackageView>, id: Seq<char>, from: int) -> int
    decreases packages.len() - from,
{
    if from < 0 || from >= packages.len() {
        packages.len() as int
    } else if text_le(packages[from].id, id) {
        place(packages, id, from + 1)
    } else {
        from
    }
}

/// The packages in the order of their identifiers; packages with one
/// identifier keep their order.
pub open spec fn sorted_by_id(packages: Seq<PackageView>) -> Seq<PackageView>
    decreases packages.len(),
{
    if packages.len() == 0 {
        Seq::empty()
    } else {
        let front = sorted_by_id(packages.drop_last());
        front.insert(place(front, packages.last().id, 0), packages.last())
    }
}

/// The position that `place` gives lies in the sequence or at its end;
/// what stands before it does not come after the package, and what stands
/// at it does.
pub proof fn lemma_place(packages: Seq<PackageView>, id: Seq<char>, from: int)
    requires
        0 <= from <= packages.len(),
    ensures
        from <= place(packages, id, from) <= packages.len(),
        forall|k: int| from <= k < place(packages, id, from) ==> text_le(packages[k].id, id),
        place(packages, id, from) < packages.len() ==> !text_le(
            packages[place(packages, id, from)].id,
            id,
        ),
    decreases packages.len() - from,
{
    if from < packages.len() && text_le(packages[from].id, id) {
        lemma_place(packages, id, from + 1);
    }
}

/// Sorting gives the same packages, each as often as before, in order.
pub proof fn sorted_is_ordered_permutation(packages: Seq<PackageView>)
    ensures
        ordered(sorted_by_id(packages)),
        sorted_by_id(packages).to_multiset() == packages.to_multiset(),
        sorted_by_id(packages).len() == packages.len(),
    decreases packages.len(),
{
    broadcast use vstd::seq_lib::group_to_multiset_ensures;

    if packages.len() > 0 {
        let last = packages.last();
        let front = sorted_by_id(packages.drop_last());
        sorted_is_ordered_permutation(packages.drop_last());
        lemma_place(front, last.id, 0);
        let at = place(front, last.id, 0);
        let sorted = front.insert(at, last);
        assert forall|i: int, j: int| 0 <= i < j < sorted.len() implies text_le(
            (#[trigger] sorted[i]).id,
            (#[trigger] sorted[j]).id,
        ) by {
            if j == at {
                assert(sorted[i] == front[i]);
            } else if i == at {
                assert(sorted[j] == front[j - 1]);
                lemma_text_le_total(front[at].id, last.id);
                if j - 1 > at {
                    assert(text_le(front[at].id, front[j - 1].id));
                    lemma_text_le_transitive(last.id, front[at].id, front[j - 1].id);
                }
            } else {
                let a = if i < at { i } else { i - 1 };
                let b = if j < at { j } else { j - 1 };
                assert(sorted[i] == front[a]);
                assert(sorted[j] == front[b]);
                assert(text_le(front[a].id, front[b].id));
            }
        }
        assert(sorted.to_multiset() =~= packages.to_multiset()) by {
            assert(sorted.remove(at) == front);
            assert(sorted[at] == last);
            assert(packages == packages.drop_last().push(last));
            assert(sorted.to_multiset().remove(last) =~= front.to_multiset());
            assert(sorted.to_multiset().count(last) > 0) by {
                assert(sorted.contains(last));
            }
        }
    }
}

/// Whether `a` comes before `b`, or is `b`, in the order of texts.
pub fn comes_first(a: &Vec<char>, b: &Vec<char>) -> (first: bool)
    ensures
        first == text_le(a@, b@),
{
    let mut i: usize = 0;
    assert(a@.skip(0) == a@ && b@.skip(0) == b@);
    while i < a.len() && i < b.len()
        invariant
            i <= a.len(),
            i <= b.len(),
            text_le(a@, b@) == text_le(a@.skip(i as int), b@.skip(i as int)),
        decreases a.len() - i,
    {
        if a[i] != b[i] {
            return (a[i] as u32) < (b[i] as u32);
        }
        assert(a@.skip(i as int).skip(1) == a@.skip(i + 1));
        assert(b@.skip(i as int).skip(1) == b@.skip(i + 1));
        i += 1;
    }
    i >= a.len()
}

/// Finds where a package with the identifier `id` goes among ordered
/// packages.
pub fn find_place(sorted: &Vec<PackageLicenseInfo>, id: &str) -> (at: usize)
    ensures
        at == place(package_views(sorted@), id@, 0),
        at <= sorted.len(),
{
    let wanted = chars_of(id);
    let ghost front = package_views(sorted@);
    let mut at: usize = 0;
    while at < sorted.len()
        invariant
            at <= sorted.len(),
            front == package_views(sorted@),
            wanted@ == id@,
            place(front, id@, 0) == place(front, id@, at as int),
        decreases sorted.len() - at,
    {
        assert(front[at as int] == sorted@[at as int]@);
        let there = chars_of(sorted[at].id.as_str());
        if !comes_first(&there, &wanted) {
            return at;
        }
        at += 1;
    }
    at
}

/// Puts the packages in the order of their identifiers.
pub fn sort_packages(packages: Vec<PackageLicenseInfo>) -> (sorted: Vec<PackageLicenseInfo>)
    ensures
        package_views(sorted@) == sorted_by_id(package_views(packages@)),
{
    let ghost all = package_views(packages@);
    let mut rest = packages;
    let mut sorted: Vec<PackageLicenseInfo> = Vec::new();
    let ghost mut taken: int = 0;
    assert(all.take(0) == Seq::<PackageView>::empty());
    assert(all.skip(0) == all);
    while rest.len() > 0
        invariant
            0 <= taken <= all.len(),
            package_views(rest@) == all.skip(taken),
            package_views(sorted@) == sorted_by_id(all.take(taken)),
        decreases rest.len(),
    {
        let ghost before_rest = rest@;
        assert(all.skip(taken).len() == rest@.len());
        let next = rest.remove(0);
        let ghost front = package_views(sorted@);
        let at = find_place(&sorted, next.id.as_str());
        proof {
            lemma_place(front, next@.id, 0);
        }
        sorted.insert(at, next);
        proof {
            assert(package_views(sorted@) =~= front.insert(at as int, next@));
            assert(next@ == all[taken]) by {
                assert(package_views(before_rest)[0] == before_rest[0]@);
                assert(all.skip(taken)[0] == all[taken]);
            }
            assert(all.take(taken + 1).drop_last() == all.take(taken));
            assert(all.take(taken + 1).last() == all[taken]);
            assert forall|k: int| 0 <= k < rest@.len() implies package_views(rest@)[k] == all.skip(
                taken + 1,
            )[k] by {
                assert(rest@[k] == before_rest[k + 1]);
                assert(package_views(before_rest)[k + 1] == before_rest[k + 1]@);
                assert(all.skip(taken)[k + 1] == all[taken + k + 1]);
            }
            assert(package_views(rest@) =~= all.skip(taken + 1));
            taken = taken + 1;
        }
    }
    assert(all.take(taken) == all);
    sorted
}

/// The first position of a package with the identifier `id`.
pub open spec fn position_of(packages: Seq<PackageView>, id: Seq<char>, from: int) -> Option<int>
    decreases packages.len() - from,
{
    if from < 0 || from >= packages.len() {
        None
    } else if packages[from].id == id {
        Some(from)
    } else {
        position_of(packages, id, from + 1)
    }
}

/// The software's own package and the others in the order of the report:
/// the first package with the identifier `root_id` is taken out, the last
/// package moving into its place, and the rest is put in the order of the
/// identifiers. `None` where no package has the identifier.
pub open spec fn arranged(packages: Seq<PackageView>, root_id: Seq<char>) -> Option<
    (PackageView, Seq<PackageView>),
> {
    match position_of(packages, root_id, 0) {
        Some(at) => Some(
            (packages[at], sorted_by_id(packages.update(at, packages.last()).drop_last())),
        ),
        None => None,
    }
}

/// The value of a package and of the packages after it.
pub open spec fn arranged_view(found: Option<(PackageLicenseInfo, Vec<PackageLicenseInfo>)>)
    -> Option<(PackageView, Seq<PackageView>)> {
    match found {
        Some((root, others)) => Some((root@, package_views(others@))),
        None => None,
    }
}

/// Picks the software's own package out of `packages` and puts the others
/// in the order in which the report lists them.
pub fn arrange(packages: Vec<PackageLicenseInfo>, root_id: &str) -> (found: Option<
    (PackageLicenseInfo, Vec<PackageLicenseInfo>),
>)
    ensures
        arranged_view(found) == arranged(package_views(packages@), root_id@),
{
    let ghost all = package_views(packages@);
    let mut rest = packages;
    let mut at: usize = 0;
    while at < rest.len()
        invariant
            at <= rest.len(),
            all == package_views(packages@),
            all == package_views(rest@),
            position_of(all, root_id@, 0) == position_of(all, root_id@, at as int),
        decreases rest.len() - at,
    {
        assert(all[at as int] == rest@[at as int]@);
        if same_text(rest[at].id.as_str(), root_id) {
            assert(position_of(all, root_id@, at as int) == Some(at as int));
            let ghost before = rest@;
            let root = rest.swap_remove(at);
            assert(root@ == all[at as int]);
            assert(all.last() == before.last()@);
            assert forall|k: int| 0 <= k < rest@.len() implies package_views(rest@)[k]
                == all.update(at as int, all.last()).drop_last()[k] by {
                if k != at {
                    assert(rest@[k] == before[k]);
                    assert(all[k] == before[k]@);
                }
            }
            assert(package_views(rest@) =~= all.update(at as int, all.last()).drop_last());
            return Some((root, sort_packages(rest)));
        }
        at += 1;
    }
    None
}

} // verus!
