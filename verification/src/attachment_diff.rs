use vstd::prelude::*;
use crate::sequences::{lemma_filter_members, lemma_filter_keeps, lemma_filter_prefix_step, lemma_filter_sorted_unique, lemma_sorted_unique_equal};
use crate::text::lemma_text_order_is_total;
use crate::text::{sort_texts, str_equal, strings_view, text_order};

verus! {

/// An attachment reference as its asset id and label.
pub type AttachmentRef = (Seq<char>, Seq<char>);

/// The attachment references of a snapshot, as views.
pub open spec fn refs_view(refs: Seq<(String, String)>) -> Seq<AttachmentRef> {
    refs.map_values(|r: (String, String)| (r.0@, r.1@))
}

/// The asset ids of the references, in order.
pub open spec fn reference_ids(refs: Seq<AttachmentRef>) -> Seq<Seq<char>> {
    refs.map_values(|r: AttachmentRef| r.0)
}

/// The ids, each kept at its first occurrence.
pub open spec fn distinct_ids(ids: Seq<Seq<char>>) -> Seq<Seq<char>>
    decreases ids.len(),
{
    if ids.len() == 0 {
        Seq::empty()
    } else {
        let kept = distinct_ids(ids.drop_last());
        if kept.contains(ids.last()) {
            kept
        } else {
            kept.push(ids.last())
        }
    }
}

/// The asset ids of a snapshot, each once, in the order of the ids.
pub open spec fn asset_keys(refs: Seq<AttachmentRef>) -> Seq<Seq<char>> {
    distinct_ids(reference_ids(refs)).sort_by(text_order())
}

/// The reference a snapshot holds for an asset: the last one with its id.
pub open spec fn last_reference(refs: Seq<AttachmentRef>, id: Seq<char>) -> AttachmentRef
    decreases refs.len(),
{
    if refs.len() == 0 {
        (id, Seq::empty())
    } else if refs.last().0 == id {
        refs.last()
    } else {
        last_reference(refs.drop_last(), id)
    }
}

proof fn lemma_last_reference_id(refs: Seq<AttachmentRef>, id: Seq<char>)
    ensures
        last_reference(refs, id).0 == id,
    decreases refs.len(),
{
    if refs.len() > 0 && refs.last().0 != id {
        lemma_last_reference_id(refs.drop_last(), id);
    }
}

/// Whether the snapshot references the asset.
pub open spec fn references(refs: Seq<AttachmentRef>, id: Seq<char>) -> bool {
    reference_ids(refs).contains(id)
}

/// The assets of the left snapshot that the right one no longer references.
pub open spec fn removed_of(left: Seq<AttachmentRef>, right: Seq<AttachmentRef>) -> Seq<AttachmentRef> {
    asset_keys(left).filter(|id: Seq<char>| !references(right, id)).map_values(|id: Seq<char>| last_reference(left, id))
}

/// The assets both snapshots reference under different labels, each with
/// its label before and after.
pub open spec fn relabeled_of(left: Seq<AttachmentRef>, right: Seq<AttachmentRef>) -> Seq<(Seq<char>, Seq<char>, Seq<char>)> {
    asset_keys(left).filter(|id: Seq<char>| references(right, id) && last_reference(right, id).1 != last_reference(left, id).1)
        .map_values(|id: Seq<char>| (id, last_reference(left, id).1, last_reference(right, id).1))
}

/// How many assets both snapshots reference under the same label.
pub open spec fn unchanged_of(left: Seq<AttachmentRef>, right: Seq<AttachmentRef>) -> nat {
    asset_keys(left).filter(|id: Seq<char>| references(right, id) && last_reference(right, id).1 == last_reference(left, id).1).len()
}

/// The assets of the right snapshot that the left one did not reference.
pub open spec fn added_of(left: Seq<AttachmentRef>, right: Seq<AttachmentRef>) -> Seq<AttachmentRef> {
    asset_keys(right).filter(|id: Seq<char>| !references(left, id)).map_values(|id: Seq<char>| last_reference(right, id))
}

#[derive(Debug, Clone, PartialEq, Eq)]
pub struct AttachmentLabelChange {
    asset_id: String,
    before_label: String,
    after_label: String,
}

impl View for AttachmentLabelChange {
    type V = (Seq<char>, Seq<char>, Seq<char>);

    closed spec fn view(&self) -> (Seq<char>, Seq<char>, Seq<char>) {
        (self.asset_id@, self.before_label@, self.after_label@)
    }
}

impl AttachmentLabelChange {
    pub fn asset_id(&self) -> (result: &str)
        ensures
            result@ == self@.0,
    {
        self.asset_id.as_str()
    }

    pub fn before_label(&self) -> (result: &str)
        ensures
            result@ == self@.1,
    {
        self.before_label.as_str()
    }

    pub fn after_label(&self) -> (result: &str)
        ensures
            result@ == self@.2,
    {
        self.after_label.as_str()
    }
}

#[derive(Debug, Clone, PartialEq, Eq)]
pub struct KnownAttachmentDiff {
    added: Vec<(String, String)>,
    removed: Vec<(String, String)>,
    relabeled: Vec<AttachmentLabelChange>,
    unchanged_count: usize,
}

impl View for KnownAttachmentDiff {
    type V = (Seq<AttachmentRef>, Seq<AttachmentRef>, Seq<(Seq<char>, Seq<char>, Seq<char>)>, usize);

    closed spec fn view(&self) -> (Seq<AttachmentRef>, Seq<AttachmentRef>, Seq<(Seq<char>, Seq<char>, Seq<char>)>, usize) {
        (refs_view(self.added@), refs_view(self.removed@), self.relabeled@.map_values(|c: AttachmentLabelChange| c@), self.unchanged_count)
    }
}

impl KnownAttachmentDiff {
    pub fn added(&self) -> (result: &[(String, String)])
        ensures
            refs_view(result@) == self@.0,
    {
        self.added.as_slice()
    }

    pub fn removed(&self) -> (result: &[(String, String)])
        ensures
            refs_view(result@) == self@.1,
    {
        self.removed.as_slice()
    }

    pub fn relabeled(&self) -> (result: &[AttachmentLabelChange])
        ensures
            result@.map_values(|c: AttachmentLabelChange| c@) == self@.2,
    {
        self.relabeled.as_slice()
    }

    pub fn unchanged_count(&self) -> (result: usize)
        ensures
            result == self@.3,
    {
        self.unchanged_count
    }
}

#[derive(Debug, Clone, PartialEq, Eq)]
pub enum AttachmentDiff {
    Known(KnownAttachmentDiff),
    LegacyUnknown,
}

/// An attachment diff with its parts as views.
pub enum AttachmentDiffView {
    Known((Seq<AttachmentRef>, Seq<AttachmentRef>, Seq<(Seq<char>, Seq<char>, Seq<char>)>, usize)),
    LegacyUnknown,
}

impl View for AttachmentDiff {
    type V = AttachmentDiffView;

    open spec fn view(&self) -> AttachmentDiffView {
        match self {
            AttachmentDiff::Known(diff) => AttachmentDiffView::Known(diff@),
            AttachmentDiff::LegacyUnknown => AttachmentDiffView::LegacyUnknown,
        }
    }
}

fn has_asset(refs: &[(String, String)], id: &str) -> (result: bool)
    ensures
        result == references(refs_view(refs@), id@),
{
    let ghost ids = reference_ids(refs_view(refs@));
    let mut i: usize = 0;
    while i < refs.len()
        invariant
            i <= refs.len(),
            ids == reference_ids(refs_view(refs@)),
            forall|j: int| 0 <= j < i ==> ids[j] != id@,
        decreases refs.len() - i,
    {
        assert(ids[i as int] == refs@[i as int].0@);
        if str_equal(refs[i].0.as_str(), id) {
            assert(ids[i as int] == id@);
            return true;
        }
        i = i + 1;
    }
    false
}

fn listed_id(ids: &Vec<String>, id: &str) -> (result: bool)
    ensures
        result == strings_view(ids@).contains(id@),
{
    let ghost view = strings_view(ids@);
    let mut i: usize = 0;
    while i < ids.len()
        invariant
            i <= ids.len(),
            view == strings_view(ids@),
            forall|j: int| 0 <= j < i ==> view[j] != id@,
        decreases ids.len() - i,
    {
        assert(view[i as int] == ids@[i as int]@);
        if str_equal(ids[i].as_str(), id) {
            return true;
        }
        i = i + 1;
    }
    false
}

fn asset_keys_of(refs: &[(String, String)]) -> (result: Vec<String>)
    ensures
        strings_view(result@) == asset_keys(refs_view(refs@)),
{
    let ghost ids = reference_ids(refs_view(refs@));
    let mut distinct: Vec<String> = Vec::new();
    let mut i: usize = 0;
    assert(ids.subrange(0, 0) =~= Seq::<Seq<char>>::empty());
    assert(strings_view(distinct@) =~= distinct_ids(ids.subrange(0, 0)));
    while i < refs.len()
        invariant
            i <= refs.len(),
            ids == reference_ids(refs_view(refs@)),
            strings_view(distinct@) == distinct_ids(ids.subrange(0, i as int)),
        decreases refs.len() - i,
    {
        assert(ids.subrange(0, i + 1).drop_last() =~= ids.subrange(0, i as int));
        assert(ids.subrange(0, i + 1).last() == refs@[i as int].0@);
        if !listed_id(&distinct, refs[i].0.as_str()) {
            let ghost before = distinct@;
            distinct.push(refs[i].0.clone());
            assert(strings_view(distinct@) =~= strings_view(before).push(refs@[i as int].0@));
        }
        i = i + 1;
    }
    assert(ids.subrange(0, refs.len() as int) =~= ids);
    sort_texts(distinct)
}

fn last_reference_of(refs: &[(String, String)], id: &str) -> (result: (String, String))
    ensures
        (result.0@, result.1@) == last_reference(refs_view(refs@), id@),
{
    let ghost view = refs_view(refs@);
    let mut i: usize = refs.len();
    assert(view.subrange(0, i as int) =~= view);
    while i > 0
        invariant
            i <= refs.len(),
            view == refs_view(refs@),
            last_reference(view, id@) == last_reference(view.subrange(0, i as int), id@),
        decreases i,
    {
        let k = i - 1;
        assert(view.subrange(0, i as int).last() == (refs@[k as int].0@, refs@[k as int].1@));
        assert(view.subrange(0, i as int).drop_last() =~= view.subrange(0, k as int));
        if str_equal(refs[k].0.as_str(), id) {
            return (refs[k].0.clone(), refs[k].1.clone());
        }
        i = k;
    }
    (id.to_string(), String::new())
}

/// Compares the attachments of two snapshots by asset id: what was removed,
/// relabeled, kept and added, each list in the order of the asset ids. A
/// snapshot whose references are not recorded (`None`) makes the diff
/// unknown.
pub fn compare_attachment_snapshots(left: Option<&[(String, String)]>, right: Option<&[(String, String)]>) -> (result: AttachmentDiff)
    ensures
        match (left, right) {
            (Some(l), Some(r)) => result@ == AttachmentDiffView::Known((
                added_of(refs_view(l@), refs_view(r@)),
                removed_of(refs_view(l@), refs_view(r@)),
                relabeled_of(refs_view(l@), refs_view(r@)),
                unchanged_of(refs_view(l@), refs_view(r@)) as usize,
            )),
            _ => result@ == AttachmentDiffView::LegacyUnknown,
        },
{
    let (left, right) = match (left, right) {
        (Some(l), Some(r)) => (l, r),
        _ => {
            return AttachmentDiff::LegacyUnknown;
        },
    };
    let ghost lv = refs_view(left@);
    let ghost rv = refs_view(right@);
    let left_keys = asset_keys_of(left);
    let right_keys = asset_keys_of(right);
    let ghost lk = strings_view(left_keys@);
    let ghost rk = strings_view(right_keys@);
    let ghost gone = |id: Seq<char>| !references(rv, id);
    let ghost changed = |id: Seq<char>| references(rv, id) && last_reference(rv, id).1 != last_reference(lv, id).1;
    let ghost same = |id: Seq<char>| references(rv, id) && last_reference(rv, id).1 == last_reference(lv, id).1;
    let ghost fresh = |id: Seq<char>| !references(lv, id);
    let mut removed: Vec<(String, String)> = Vec::new();
    let mut relabeled: Vec<AttachmentLabelChange> = Vec::new();
    let mut unchanged_count: usize = 0;
    let mut i: usize = 0;
    assert(lk.subrange(0, 0) =~= Seq::<Seq<char>>::empty());
    assert(refs_view(removed@) =~= lk.subrange(0, 0).filter(gone).map_values(|id: Seq<char>| last_reference(lv, id)));
    assert(relabeled@.map_values(|c: AttachmentLabelChange| c@) =~= lk.subrange(0, 0).filter(changed).map_values(
        |id: Seq<char>| (id, last_reference(lv, id).1, last_reference(rv, id).1),
    ));
    while i < left_keys.len()
        invariant
            i <= left_keys.len(),
            lv == refs_view(left@),
            rv == refs_view(right@),
            lk == strings_view(left_keys@),
            gone == (|id: Seq<char>| !references(rv, id)),
            changed == (|id: Seq<char>| references(rv, id) && last_reference(rv, id).1 != last_reference(lv, id).1),
            same == (|id: Seq<char>| references(rv, id) && last_reference(rv, id).1 == last_reference(lv, id).1),
            refs_view(removed@) == lk.subrange(0, i as int).filter(gone).map_values(|id: Seq<char>| last_reference(lv, id)),
            relabeled@.map_values(|c: AttachmentLabelChange| c@) == lk.subrange(0, i as int).filter(changed).map_values(
                |id: Seq<char>| (id, last_reference(lv, id).1, last_reference(rv, id).1),
            ),
            unchanged_count == lk.subrange(0, i as int).filter(same).len(),
            unchanged_count <= i,
        decreases left_keys.len() - i,
    {
        let key = left_keys[i].as_str();
        assert(lk[i as int] == key@);
        proof {
            lemma_filter_prefix_step(lk, gone, i as int);
            lemma_filter_prefix_step(lk, changed, i as int);
            lemma_filter_prefix_step(lk, same, i as int);
        }
        let previous = last_reference_of(left, key);
        if !has_asset(right, key) {
            let ghost before = removed@;
            removed.push(previous);
            assert(refs_view(removed@) =~= refs_view(before).push(last_reference(lv, key@)));
            assert(lk.subrange(0, i + 1).filter(gone).map_values(|id: Seq<char>| last_reference(lv, id)) =~= lk.subrange(0, i as int).filter(
                gone,
            ).map_values(|id: Seq<char>| last_reference(lv, id)).push(last_reference(lv, key@)));
        } else {
            let next = last_reference_of(right, key);
            if crate::text::str_equal(next.1.as_str(), previous.1.as_str()) {
                unchanged_count = unchanged_count + 1;
            } else {
                let ghost before = relabeled@;
                let change = AttachmentLabelChange { asset_id: previous.0, before_label: previous.1, after_label: next.1 };
                proof {
                    lemma_last_reference_id(lv, key@);
                }
                assert(change@ == (key@, last_reference(lv, key@).1, last_reference(rv, key@).1));
                relabeled.push(change);
                assert(relabeled@.map_values(|c: AttachmentLabelChange| c@) =~= before.map_values(|c: AttachmentLabelChange| c@).push(
                    (key@, last_reference(lv, key@).1, last_reference(rv, key@).1),
                ));
                assert(lk.subrange(0, i + 1).filter(changed).map_values(
                    |id: Seq<char>| (id, last_reference(lv, id).1, last_reference(rv, id).1),
                ) =~= lk.subrange(0, i as int).filter(changed).map_values(
                    |id: Seq<char>| (id, last_reference(lv, id).1, last_reference(rv, id).1),
                ).push((key@, last_reference(lv, key@).1, last_reference(rv, key@).1)));
            }
        }
        i = i + 1;
    }
    assert(lk.subrange(0, left_keys.len() as int) =~= lk);
    let mut added: Vec<(String, String)> = Vec::new();
    let mut k: usize = 0;
    assert(rk.subrange(0, 0) =~= Seq::<Seq<char>>::empty());
    assert(refs_view(added@) =~= rk.subrange(0, 0).filter(fresh).map_values(|id: Seq<char>| last_reference(rv, id)));
    while k < right_keys.len()
        invariant
            k <= right_keys.len(),
            lv == refs_view(left@),
            rv == refs_view(right@),
            rk == strings_view(right_keys@),
            fresh == (|id: Seq<char>| !references(lv, id)),
            refs_view(added@) == rk.subrange(0, k as int).filter(fresh).map_values(|id: Seq<char>| last_reference(rv, id)),
        decreases right_keys.len() - k,
    {
        let key = right_keys[k].as_str();
        assert(rk[k as int] == key@);
        proof {
            lemma_filter_prefix_step(rk, fresh, k as int);
        }
        if !has_asset(left, key) {
            let next = last_reference_of(right, key);
            let ghost before = added@;
            added.push(next);
            assert(refs_view(added@) =~= refs_view(before).push(last_reference(rv, key@)));
            assert(rk.subrange(0, k + 1).filter(fresh).map_values(|id: Seq<char>| last_reference(rv, id)) =~= rk.subrange(0, k as int).filter(
                fresh,
            ).map_values(|id: Seq<char>| last_reference(rv, id)).push(last_reference(rv, key@)));
        }
        k = k + 1;
    }
    assert(rk.subrange(0, right_keys.len() as int) =~= rk);
    AttachmentDiff::Known(KnownAttachmentDiff { added, removed, relabeled, unchanged_count })
}


/// Every asset of the earlier snapshot is reported exactly once: as
/// removed, as relabeled or as unchanged.
pub proof fn lemma_left_assets_partitioned(left: Seq<AttachmentRef>, right: Seq<AttachmentRef>)
    ensures
        removed_of(left, right).len() + relabeled_of(left, right).len() + unchanged_of(left, right) == asset_keys(left).len(),
{
    let gone = |id: Seq<char>| !references(right, id);
    let changed = |id: Seq<char>| references(right, id) && last_reference(right, id).1 != last_reference(left, id).1;
    let same = |id: Seq<char>| references(right, id) && last_reference(right, id).1 == last_reference(left, id).1;
    crate::sequences::lemma_filter_partition(asset_keys(left), gone, changed, same);
}


proof fn lemma_distinct_ids(ids: Seq<Seq<char>>)
    ensures
        distinct_ids(ids).no_duplicates(),
        forall|x: Seq<char>| distinct_ids(ids).contains(x) <==> ids.contains(x),
    decreases ids.len(),
{
    if ids.len() > 0 {
        let init = ids.drop_last();
        lemma_distinct_ids(init);
        let kept = distinct_ids(init);
        assert forall|x: Seq<char>| ids.contains(x) <==> init.contains(x) || x == ids.last() by {
            if ids.contains(x) {
                let i = choose|i: int| 0 <= i < ids.len() && ids[i] == x;
                if i < ids.len() - 1 {
                    assert(init[i] == x);
                }
            }
            if init.contains(x) {
                let i = choose|i: int| 0 <= i < init.len() && init[i] == x;
                assert(ids[i] == x);
            }
            if x == ids.last() {
                assert(ids[ids.len() - 1] == x);
            }
        }
        if !kept.contains(ids.last()) {
            let out = kept.push(ids.last());
            assert forall|x: Seq<char>| out.contains(x) <==> kept.contains(x) || x == ids.last() by {
                if out.contains(x) {
                    let i = choose|i: int| 0 <= i < out.len() && out[i] == x;
                    if i < kept.len() {
                        assert(kept[i] == x);
                    }
                }
                if kept.contains(x) {
                    let i = choose|i: int| 0 <= i < kept.len() && kept[i] == x;
                    assert(out[i] == x);
                }
                if x == ids.last() {
                    assert(out[kept.len() as int] == x);
                }
            }
            assert forall|i: int, j: int| 0 <= i < out.len() && 0 <= j < out.len() && i != j implies out[i] != out[j] by {
                if i < kept.len() && j < kept.len() {
                    assert(out[i] == kept[i] && out[j] == kept[j]);
                } else if i < kept.len() {
                    assert(out[i] == kept[i]);
                    assert(kept.contains(kept[i]));
                } else {
                    assert(out[j] == kept[j]);
                    assert(kept.contains(kept[j]));
                }
            }
        }
    }
}

/// The asset keys of a snapshot are sorted, hold each id once, and are
/// exactly the ids the snapshot references.
proof fn lemma_asset_keys(refs: Seq<AttachmentRef>)
    ensures
        vstd::relations::sorted_by(asset_keys(refs), text_order()),
        asset_keys(refs).no_duplicates(),
        forall|id: Seq<char>| asset_keys(refs).contains(id) <==> references(refs, id),
{
    let ids = distinct_ids(reference_ids(refs));
    lemma_distinct_ids(reference_ids(refs));
    lemma_text_order_is_total();
    ids.lemma_sort_by_ensures(text_order());
    let keys = ids.sort_by(text_order());
    broadcast use vstd::seq_lib::group_to_multiset_ensures;
    assert forall|id: Seq<char>| keys.contains(id) <==> references(refs, id) by {
        assert(keys.to_multiset().count(id) == ids.to_multiset().count(id));
    }
    ids.lemma_multiset_has_no_duplicates();
    keys.lemma_multiset_has_no_duplicates_conv();
}

/// A comparison read from the other side: what was added one way is
/// removed the other way and back, as many assets are unchanged, and the
/// relabeled assets are the same with their labels swapped.
pub proof fn lemma_attachment_diff_symmetric(left: Seq<AttachmentRef>, right: Seq<AttachmentRef>)
    ensures
        added_of(left, right) == removed_of(right, left),
        removed_of(left, right) == added_of(right, left),
        unchanged_of(left, right) == unchanged_of(right, left),
        relabeled_of(right, left) == relabeled_of(left, right).map_values(
            |c: (Seq<char>, Seq<char>, Seq<char>)| (c.0, c.2, c.1),
        ),
{
    let lk = asset_keys(left);
    let rk = asset_keys(right);
    lemma_asset_keys(left);
    lemma_asset_keys(right);
    lemma_text_order_is_total();
    let gone_l = |id: Seq<char>| !references(left, id);
    let gone_r = |id: Seq<char>| !references(right, id);
    assert(added_of(left, right) =~= rk.filter(gone_l).map_values(|id: Seq<char>| last_reference(right, id)));
    assert(removed_of(right, left) =~= rk.filter(gone_l).map_values(|id: Seq<char>| last_reference(right, id)));
    assert(removed_of(left, right) =~= lk.filter(gone_r).map_values(|id: Seq<char>| last_reference(left, id)));
    assert(added_of(right, left) =~= lk.filter(gone_r).map_values(|id: Seq<char>| last_reference(left, id)));
    let same_lr = |id: Seq<char>| references(right, id) && last_reference(right, id).1 == last_reference(left, id).1;
    let same_rl = |id: Seq<char>| references(left, id) && last_reference(left, id).1 == last_reference(right, id).1;
    let diff_lr = |id: Seq<char>| references(right, id) && last_reference(right, id).1 != last_reference(left, id).1;
    let diff_rl = |id: Seq<char>| references(left, id) && last_reference(left, id).1 != last_reference(right, id).1;
    lemma_common_keys(lk, rk, left, right, same_lr, same_rl);
    lemma_common_keys(lk, rk, left, right, diff_lr, diff_rl);
    let common = lk.filter(diff_lr);
    assert(common == rk.filter(diff_rl));
    assert(relabeled_of(right, left) =~= relabeled_of(left, right).map_values(
        |c: (Seq<char>, Seq<char>, Seq<char>)| (c.0, c.2, c.1),
    ));
}

/// Filtering the keys of either snapshot down to the assets both reference
/// and that meet the same condition gives the same keys.
proof fn lemma_common_keys(
    lk: Seq<Seq<char>>,
    rk: Seq<Seq<char>>,
    left: Seq<AttachmentRef>,
    right: Seq<AttachmentRef>,
    p: spec_fn(Seq<char>) -> bool,
    q: spec_fn(Seq<char>) -> bool,
)
    requires
        lk == asset_keys(left),
        rk == asset_keys(right),
        vstd::relations::sorted_by(lk, text_order()),
        vstd::relations::sorted_by(rk, text_order()),
        lk.no_duplicates(),
        rk.no_duplicates(),
        forall|id: Seq<char>| lk.contains(id) <==> references(left, id),
        forall|id: Seq<char>| rk.contains(id) <==> references(right, id),
        vstd::relations::total_ordering(text_order()),
        forall|id: Seq<char>| #[trigger] p(id) ==> references(right, id),
        forall|id: Seq<char>| #[trigger] q(id) ==> references(left, id),
        forall|id: Seq<char>| references(left, id) && references(right, id) ==> (#[trigger] p(id) <==> #[trigger] q(id)),
    ensures
        lk.filter(p) == rk.filter(q),
{
    lemma_filter_sorted_unique(lk, p, text_order());
    lemma_filter_sorted_unique(rk, q, text_order());
    lemma_filter_members(lk, p);
    lemma_filter_members(rk, q);
    assert forall|x: Seq<char>| lk.filter(p).contains(x) <==> rk.filter(q).contains(x) by {
        if lk.filter(p).contains(x) {
            let i = choose|i: int| 0 <= i < lk.filter(p).len() && lk.filter(p)[i] == x;
            assert(p(lk.filter(p)[i]) && lk.contains(x));
            assert(rk.contains(x));
            let j = choose|j: int| 0 <= j < rk.len() && rk[j] == x;
            lemma_filter_keeps(rk, q, j);
        }
        if rk.filter(q).contains(x) {
            let i = choose|i: int| 0 <= i < rk.filter(q).len() && rk.filter(q)[i] == x;
            assert(q(rk.filter(q)[i]) && rk.contains(x));
            assert(lk.contains(x));
            let j = choose|j: int| 0 <= j < lk.len() && lk[j] == x;
            lemma_filter_keeps(lk, p, j);
        }
    }
    lemma_sorted_unique_equal(lk.filter(p), rk.filter(q), text_order());
}

/// A snapshot compared with itself: nothing is added, removed or
/// relabeled, and every referenced asset is unchanged, each counted once.
pub proof fn lemma_attachment_diff_self(refs: Seq<AttachmentRef>)
    ensures
        added_of(refs, refs).len() == 0,
        removed_of(refs, refs).len() == 0,
        relabeled_of(refs, refs).len() == 0,
        unchanged_of(refs, refs) == distinct_ids(reference_ids(refs)).len(),
{
    let keys = asset_keys(refs);
    lemma_asset_keys(refs);
    let gone = |id: Seq<char>| !references(refs, id);
    let changed = |id: Seq<char>| references(refs, id) && last_reference(refs, id).1 != last_reference(refs, id).1;
    let same = |id: Seq<char>| references(refs, id) && last_reference(refs, id).1 == last_reference(refs, id).1;
    lemma_filter_members(keys, gone);
    lemma_filter_members(keys, changed);
    if keys.filter(gone).len() > 0 {
        assert(gone(keys.filter(gone)[0]) && keys.contains(keys.filter(gone)[0]));
    }
    if keys.filter(changed).len() > 0 {
        assert(changed(keys.filter(changed)[0]));
    }
    crate::sequences::lemma_filter_partition(keys, gone, changed, same);
    let ids = distinct_ids(reference_ids(refs));
    lemma_text_order_is_total();
    ids.lemma_sort_by_ensures(text_order());
    broadcast use vstd::seq_lib::group_to_multiset_ensures;
    assert(keys.len() == keys.to_multiset().len());
    assert(ids.len() == ids.to_multiset().len());
}

} // verus!
