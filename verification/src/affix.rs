//! Selectable tags and the reduction of a tag list to its initials.

use vstd::prelude::*;
use vstd::string::StrSliceExecFns;
use vstd::string::StringExecFns;

verus! {

/// A tag that the user can select. Its label is its identity.
#[derive(Debug, PartialEq, Eq)]
pub struct Affix {
    pub name: String,
    pub selected: bool,
}

/// The list that a tag belongs to.
#[derive(Debug, Clone, Copy, PartialEq, Eq, Structural)]
pub enum AffixType {
    Prefix,
    Suffix,
}

/// What a tag is in contracts: its label as characters, and whether it is
/// selected.
pub ghost struct AffixView {
    pub name: Seq<char>,
    pub selected: bool,
}

impl View for Affix {
    type V = AffixView;

    open spec fn view(&self) -> AffixView {
        AffixView { name: self.name@, selected: self.selected }
    }
}

impl Clone for Affix {
    fn clone(&self) -> (copy: Self)
        ensures
            copy@ == self@,
    {
        Affix { name: self.name.clone(), selected: self.selected }
    }
}

impl Affix {
    /// A tag with the given label, not selected.
    pub fn new(name: &str) -> (affix: Affix)
        ensures
            affix@ == (AffixView { name: name@, selected: false }),
    {
        Affix { name: String::from_str(name), selected: false }
    }

    /// A tag with the given label, selected.
    pub fn new_selected(name: &str) -> (affix: Affix)
        ensures
            affix@ == (AffixView { name: name@, selected: true }),
    {
        Affix { name: String::from_str(name), selected: true }
    }
}

/// At most this many selected tags give their initial.
pub const AFFIX_CAP: usize = 2;

/// A list of tags in contracts: the view of each, in the list's order.
pub open spec fn affix_views(list: Seq<Affix>) -> Seq<AffixView> {
    Seq::new(list.len(), |i: int| list[i]@)
}

/// The test "is selected".
pub open spec fn is_selected() -> spec_fn(AffixView) -> bool {
    |a: AffixView| a.selected
}

/// The test "has another label than `name`".
pub open spec fn is_not_named(name: Seq<char>) -> spec_fn(AffixView) -> bool {
    |a: AffixView| a.name != name
}

/// What one tag gives: the first character of its label, in the case it was
/// written in. An empty label gives nothing.
pub open spec fn initial(a: AffixView) -> Seq<char> {
    if a.name.len() > 0 {
        seq![a.name[0]]
    } else {
        Seq::empty()
    }
}

/// The initials of the first two tags of `chosen`.
pub open spec fn initials(chosen: Seq<AffixView>) -> Seq<char> {
    if chosen.len() == 0 {
        Seq::empty()
    } else if chosen.len() == 1 {
        initial(chosen[0])
    } else {
        initial(chosen[0]) + initial(chosen[1])
    }
}

/// The reduction of a list: the initials of its first two selected tags, in
/// the list's order. A selected tag with an empty label takes one of the two
/// places and gives no character.
pub open spec fn reduced(list: Seq<AffixView>) -> Seq<char> {
    initials(list.filter(is_selected()))
}

/// The list without the tags labelled `name`, the others in their order.
pub open spec fn without(list: Seq<AffixView>, name: Seq<char>) -> Seq<AffixView> {
    list.filter(is_not_named(name))
}

/// A filter keeps a sequence as it is where every element passes.
pub proof fn lemma_filter_keeps_all<A>(s: Seq<A>, pred: spec_fn(A) -> bool)
    requires
        forall|i: int| 0 <= i < s.len() ==> pred(#[trigger] s[i]),
    ensures
        s.filter(pred) == s,
    decreases s.len(),
{
    reveal(Seq::filter);
    if s.len() > 0 {
        lemma_filter_keeps_all(s.drop_last(), pred);
        assert(s.drop_last().push(s.last()) =~= s);
    }
}

/// A filter leaves nothing where no element passes.
pub proof fn lemma_filter_keeps_none<A>(s: Seq<A>, pred: spec_fn(A) -> bool)
    requires
        forall|i: int| 0 <= i < s.len() ==> !pred(#[trigger] s[i]),
    ensures
        s.filter(pred) == Seq::<A>::empty(),
    decreases s.len(),
{
    reveal(Seq::filter);
    if s.len() > 0 {
        lemma_filter_keeps_none(s.drop_last(), pred);
    } else {
        assert(s =~= Seq::<A>::empty());
    }
}

/// A list in which nothing is selected reduces to the empty string.
pub proof fn lemma_reduced_none_selected(list: Seq<AffixView>)
    requires
        forall|i: int| 0 <= i < list.len() ==> !(#[trigger] list[i]).selected,
    ensures
        reduced(list) == Seq::<char>::empty(),
{
    lemma_filter_keeps_none(list, is_selected());
}

/// A reduction never has more than two characters.
pub proof fn lemma_reduced_len(list: Seq<AffixView>)
    ensures
        reduced(list).len() <= 2,
{
}

/// Once a list holds two selected tags, its reduction is the initials of the
/// first two of them, and whatever follows the list does not change it.
pub proof fn lemma_reduced_caps_at_two(list: Seq<AffixView>, tail: Seq<AffixView>)
    requires
        list.filter(is_selected()).len() >= 2,
    ensures
        reduced(list) == initial(list.filter(is_selected())[0]) + initial(
            list.filter(is_selected())[1],
        ),
        reduced(list + tail) == reduced(list),
{
    Seq::filter_distributes_over_add(list, tail, is_selected());
}

/// Where exactly one tag is selected, the reduction is its initial.
pub proof fn lemma_reduced_single(list: Seq<AffixView>, i: int)
    requires
        0 <= i < list.len(),
        list[i].selected,
        forall|k: int| 0 <= k < list.len() && k != i ==> !(#[trigger] list[k]).selected,
    ensures
        reduced(list) == initial(list[i]),
{
    let before = list.take(i);
    let after = list.skip(i + 1);
    assert(list =~= before.push(list[i]) + after);
    lemma_filter_keeps_none(before, is_selected());
    lemma_filter_keeps_none(after, is_selected());
    before.lemma_filter_push(list[i], is_selected());
    Seq::filter_distributes_over_add(before.push(list[i]), after, is_selected());
    assert(list.filter(is_selected()) =~= seq![list[i]]);
}

/// Where the tags at `i` and `j` are the first two selected ones, the
/// reduction is the initial of the one and then of the other, whatever stands
/// after `j`, selected or not.
pub proof fn lemma_reduced_first_two(list: Seq<AffixView>, i: int, j: int)
    requires
        0 <= i < j < list.len(),
        list[i].selected,
        list[j].selected,
        forall|k: int| 0 <= k < j && k != i ==> !(#[trigger] list[k]).selected,
    ensures
        reduced(list) == initial(list[i]) + initial(list[j]),
{
    let before = list.take(i);
    let between = list.subrange(i + 1, j);
    let head = (before.push(list[i]) + between).push(list[j]);
    let tail = list.skip(j + 1);
    assert(list =~= head + tail);
    lemma_filter_keeps_none(before, is_selected());
    lemma_filter_keeps_none(between, is_selected());
    before.lemma_filter_push(list[i], is_selected());
    Seq::filter_distributes_over_add(before.push(list[i]), between, is_selected());
    (before.push(list[i]) + between).lemma_filter_push(list[j], is_selected());
    assert(head.filter(is_selected()) =~= seq![list[i], list[j]]);
    lemma_reduced_caps_at_two(head, tail);
}

/// Removing a label leaves no tag with that label.
pub proof fn lemma_without_clears(list: Seq<AffixView>, name: Seq<char>)
    ensures
        forall|i: int| 0 <= i < without(list, name).len() ==> (#[trigger] without(list, name)[i]).name != name,
{
    assert forall|i: int| 0 <= i < without(list, name).len() implies (#[trigger] without(
        list,
        name,
    )[i]).name != name by {
        list.lemma_filter_pred(is_not_named(name), i);
    }
}

/// Removing a label that no tag has leaves the list as it is.
pub proof fn lemma_without_absent(list: Seq<AffixView>, name: Seq<char>)
    requires
        forall|i: int| 0 <= i < list.len() ==> (#[trigger] list[i]).name != name,
    ensures
        without(list, name) == list,
{
    lemma_filter_keeps_all(list, is_not_named(name));
}

/// Reduces a tag list to the initials of its first two selected tags.
pub fn reduce_affixes(list: &Vec<Affix>) -> (out: String)
    ensures
        out@ == reduced(affix_views(list@)),
{
    let ghost views = affix_views(list@);
    let ghost mut chosen: Seq<AffixView> = Seq::empty();
    let mut out = String::new();
    let mut taken: usize = 0;
    let mut i: usize = 0;
    proof {
        reveal(Seq::filter);
        assert(views.take(0) =~= Seq::<AffixView>::empty());
    }
    while i < list.len()
        invariant
            i <= list.len(),
            views == affix_views(list@),
            chosen == views.take(i as int).filter(is_selected()),
            taken <= AFFIX_CAP,
            taken == chosen.len() || (taken == AFFIX_CAP && chosen.len() > AFFIX_CAP),
            out@ == initials(chosen),
        decreases list.len() - i,
    {
        let affix = &list[i];
        proof {
            assert(views.take(i + 1) =~= views.take(i as int).push(affix@));
            views.take(i as int).lemma_filter_push(affix@, is_selected());
        }
        if affix.selected {
            if taken < AFFIX_CAP {
                let label = affix.name.as_str();
                if !label.is_empty() {
                    out.push(label.get_char(0));
                }
                taken += 1;
                proof {
                    assert(out@ =~= initials(chosen.push(affix@)));
                }
            }
            proof {
                chosen = chosen.push(affix@);
            }
        }
        i += 1;
    }
    proof {
        assert(views.take(list.len() as int) =~= views);
    }
    out
}

/// Copies a tag list without the tags labelled `name`.
pub fn remove_named(list: &Vec<Affix>, name: &str) -> (kept: Vec<Affix>)
    ensures
        affix_views(kept@) == without(affix_views(list@), name@),
{
    let ghost views = affix_views(list@);
    let target = String::from_str(name);
    let mut kept: Vec<Affix> = Vec::new();
    let mut i: usize = 0;
    proof {
        reveal(Seq::filter);
        assert(views.take(0) =~= Seq::<AffixView>::empty());
        assert(affix_views(kept@) =~= Seq::<AffixView>::empty());
    }
    while i < list.len()
        invariant
            i <= list.len(),
            views == affix_views(list@),
            target@ == name@,
            affix_views(kept@) == views.take(i as int).filter(is_not_named(name@)),
        decreases list.len() - i,
    {
        let affix = &list[i];
        proof {
            assert(views.take(i + 1) =~= views.take(i as int).push(affix@));
            views.take(i as int).lemma_filter_push(affix@, is_not_named(name@));
        }
        if affix.name != target {
            let ghost before = affix_views(kept@);
            kept.push(affix.clone());
            proof {
                assert(affix_views(kept@) =~= before.push(affix@));
            }
        }
        i += 1;
    }
    proof {
        assert(views.take(list.len() as int) =~= views);
    }
    kept
}

} // verus!
