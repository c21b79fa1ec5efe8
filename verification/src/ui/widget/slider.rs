use crate::error::Error;
use vstd::prelude::*;

verus! {

/// What one child of a slider's slot tells about the slider's bounds: the left
/// bound's position where the child is the left bound, and the right bound's
/// position where it is the right bound.
pub type ChildBounds<T> = (Option<T>, Option<T>);

/// The last value that is present in `s`, if any.
pub open spec fn last_present<T>(s: Seq<Option<T>>) -> Option<T>
    decreases s.len(),
{
    if s.len() == 0 {
        None
    } else if s.last() is Some {
        s.last()
    } else {
        last_present(s.drop_last())
    }
}

/// The left bound that the children give: that of the last left bound among them.
pub open spec fn left_bound<T>(children: Seq<ChildBounds<T>>) -> Option<T> {
    last_present(children.map_values(|c: ChildBounds<T>| c.0))
}

/// The right bound that the children give: that of the last right bound among them.
pub open spec fn right_bound<T>(children: Seq<ChildBounds<T>>) -> Option<T> {
    last_present(children.map_values(|c: ChildBounds<T>| c.1))
}

/// The message of the error for a slot without a left bound.
pub open spec fn no_left_bound_message() -> Seq<char> {
    "No left bound found in Slider"@
}

/// The message of the error for a slot without a right bound.
pub open spec fn no_right_bound_message() -> Seq<char> {
    "No right bound found in Slider"@
}

/// Folding one more child into the bounds found so far keeps the last of each.
proof fn lemma_last_present_push<T>(s: Seq<Option<T>>, x: Option<T>)
    ensures
        last_present(s.push(x)) == (if x is Some { x } else { last_present(s) }),
{
    assert(s.push(x).drop_last() =~= s);
}

/// A value is present at the end of the search exactly when some entry holds
/// one, and then it is the value of the last entry that holds one.
pub proof fn last_present_is_last_given<T>(s: Seq<Option<T>>)
    ensures
        (last_present(s) is None) <==> (forall|i: int| 0 <= i < s.len() ==> #[trigger] s[i] is None),
        last_present(s) is Some ==> exists|i: int|
            0 <= i < s.len() && #[trigger] s[i] == last_present(s) && forall|j: int|
                i < j < s.len() ==> #[trigger] s[j] is None,
    decreases s.len(),
{
    if s.len() > 0 {
        let t = s.drop_last();
        last_present_is_last_given(t);
        assert forall|i: int| 0 <= i < t.len() implies t[i] == s[i] by {}
        if s.last() is Some {
            assert(s[s.len() - 1] == last_present(s));
        } else if last_present(t) is Some {
            let i = choose|i: int|
                0 <= i < t.len() && #[trigger] t[i] == last_present(t) && forall|j: int|
                    i < j < t.len() ==> #[trigger] t[j] is None;
            assert(s[i] == last_present(s));
            assert forall|j: int| i < j < s.len() implies #[trigger] s[j] is None by {
                if j < t.len() {
                    assert(t[j] is None);
                }
            }
        }
    }
}

/// A slider's slot gives a left bound exactly when one of its children is a
/// left bound, and then the last such child's; the same holds of the right
/// bound.
pub proof fn slider_bounds_come_from_last_bound_children<T>(children: Seq<ChildBounds<T>>)
    ensures
        (left_bound(children) is Some) <==> (exists|i: int| 0 <= i < children.len() && #[trigger] children[i].0 is Some),
        (right_bound(children) is Some) <==> (exists|i: int| 0 <= i < children.len() && #[trigger] children[i].1 is Some),
        left_bound(children) is Some ==> exists|i: int|
            0 <= i < children.len() && #[trigger] children[i].0 == left_bound(children) && forall|j: int|
                i < j < children.len() ==> #[trigger] children[j].0 is None,
        right_bound(children) is Some ==> exists|i: int|
            0 <= i < children.len() && #[trigger] children[i].1 == right_bound(children) && forall|j: int|
                i < j < children.len() ==> #[trigger] children[j].1 is None,
{
    let lefts = children.map_values(|c: ChildBounds<T>| c.0);
    let rights = children.map_values(|c: ChildBounds<T>| c.1);
    last_present_is_last_given(lefts);
    last_present_is_last_given(rights);
    assert forall|i: int| 0 <= i < children.len() implies lefts[i] == #[trigger] children[i].0 && rights[i] == children[i].1 by {}
    if left_bound(children) is None {
        assert forall|i: int| 0 <= i < children.len() implies !(#[trigger] children[i].0 is Some) by {
            assert(lefts[i] is None);
        }
    }
    if right_bound(children) is None {
        assert forall|i: int| 0 <= i < children.len() implies !(#[trigger] children[i].1 is Some) by {
            assert(rights[i] is None);
        }
    }
    if left_bound(children) is Some {
        let i = choose|i: int|
            0 <= i < lefts.len() && #[trigger] lefts[i] == last_present(lefts) && forall|j: int|
                i < j < lefts.len() ==> #[trigger] lefts[j] is None;
        assert(children[i].0 == left_bound(children));
        assert forall|j: int| i < j < children.len() implies #[trigger] children[j].0 is None by {
            assert(lefts[j] is None);
        }
    }
    if right_bound(children) is Some {
        let i = choose|i: int|
            0 <= i < rights.len() && #[trigger] rights[i] == last_present(rights) && forall|j: int|
                i < j < rights.len() ==> #[trigger] rights[j] is None;
        assert(children[i].1 == right_bound(children));
        assert forall|j: int| i < j < children.len() implies #[trigger] children[j].1 is None by {
            assert(rights[j] is None);
        }
    }
}

/// Finds the bounds of a slider among the children of its slot, in the order of
/// the children: the last left bound and the last right bound win. Where no
/// child is a left bound the error says so; otherwise, where no child is a
/// right bound, the error says that.
pub fn get_slider_bounds<T: Copy>(slot_children: &Vec<ChildBounds<T>>) -> (res: Result<(T, T), Error>)
    ensures
        match (left_bound(slot_children@), right_bound(slot_children@)) {
            (Some(l), Some(r)) => res == Ok::<(T, T), Error>((l, r)),
            (None, _) => res matches Err(Error::Custom(m)) && m@ == no_left_bound_message(),
            (Some(_), None) => res matches Err(Error::Custom(m)) && m@ == no_right_bound_message(),
        },
{
    let mut left: Option<T> = None;
    let mut right: Option<T> = None;
    let n = slot_children.len();
    let ghost lefts = slot_children@.map_values(|c: ChildBounds<T>| c.0);
    let ghost rights = slot_children@.map_values(|c: ChildBounds<T>| c.1);
    for i in 0..n
        invariant
            n == slot_children@.len(),
            lefts == slot_children@.map_values(|c: ChildBounds<T>| c.0),
            rights == slot_children@.map_values(|c: ChildBounds<T>| c.1),
            left == last_present(lefts.take(i as int)),
            right == last_present(rights.take(i as int)),
    {
        let child = slot_children[i];
        proof {
            lemma_last_present_push(lefts.take(i as int), child.0);
            lemma_last_present_push(rights.take(i as int), child.1);
            assert(lefts.take(i + 1) =~= lefts.take(i as int).push(child.0));
            assert(rights.take(i + 1) =~= rights.take(i as int).push(child.1));
        }
        if child.0.is_some() {
            left = child.0;
        }
        if child.1.is_some() {
            right = child.1;
        }
    }
    proof {
        assert(lefts.take(n as int) =~= lefts);
        assert(rights.take(n as int) =~= rights);
    }
    match left {
        None => Err(Error::Custom("No left bound found in Slider".to_owned())),
        Some(l) => match right {
            None => Err(Error::Custom("No right bound found in Slider".to_owned())),
            Some(r) => Ok((l, r)),
        },
    }
}

} // verus!
