//! The branch list: one item per known branch with its worktree status, worktrees
//! first and then by name, and which item is selected.

use vstd::prelude::*;
use crate::config::Config;
use crate::protocol::opt_view;
use crate::text::{holds_text, same_text, views};
use crate::worktree::{InfoView, WorktreeInfo, info_views};

verus! {

/// Status of a branch in the list.
#[derive(Debug, Clone, Copy, PartialEq, Eq, Structural)]
pub enum BranchStatus {
    /// On the remote, with no worktree.
    Remote,
    /// With a worktree in use.
    LocalActive,
    /// With a worktree whose directory is gone.
    LocalPrunable,
    /// Waiting for a worktree.
    Queued,
    /// Its worktree is being made.
    Creating,
    /// Its setup command runs.
    RunningHook,
    /// Explicitly not tracked.
    Untracked,
}

/// One line of the branch list.
#[derive(Debug, Clone)]
pub struct BranchItem {
    pub name: String,
    pub status: BranchStatus,
    pub is_default: bool,
}

/// A list item over plain values.
pub struct ItemView {
    pub name: Seq<char>,
    pub status: BranchStatus,
    pub is_default: bool,
}

impl View for BranchItem {
    type V = ItemView;

    open spec fn view(&self) -> ItemView {
        ItemView { name: self.name@, status: self.status, is_default: self.is_default }
    }
}

/// The views of a sequence of items.
pub open spec fn item_views(v: Seq<BranchItem>) -> Seq<ItemView> {
    v.map_values(|i: BranchItem| i@)
}

/// The branch has a worktree.
pub open spec fn has_worktree(s: BranchStatus) -> bool {
    s is LocalActive || s is LocalPrunable
}

/// Lexicographic order of texts by character, which is the order of `str`.
pub open spec fn text_le(a: Seq<char>, b: Seq<char>) -> bool
    decreases a.len(),
{
    if a.len() == 0 {
        true
    } else if b.len() == 0 {
        false
    } else if (a[0] as u32) != (b[0] as u32) {
        (a[0] as u32) < (b[0] as u32)
    } else {
        text_le(a.drop_first(), b.drop_first())
    }
}

/// List order: items with a worktree first, then by name.
pub open spec fn item_le(x: ItemView, y: ItemView) -> bool {
    if has_worktree(x.status) != has_worktree(y.status) {
        has_worktree(x.status)
    } else {
        text_le(x.name, y.name)
    }
}

/// The items are in list order.
pub open spec fn in_list_order(s: Seq<ItemView>) -> bool {
    forall|i: int, j: int| 0 <= i < j < s.len() ==> item_le(s[i], s[j])
}

proof fn lemma_text_le_total(a: Seq<char>, b: Seq<char>)
    ensures
        text_le(a, b) || text_le(b, a),
    decreases a.len(),
{
    if a.len() > 0 && b.len() > 0 && (a[0] as u32) == (b[0] as u32) {
        lemma_text_le_total(a.drop_first(), b.drop_first());
    }
}

proof fn lemma_text_le_trans(a: Seq<char>, b: Seq<char>, c: Seq<char>)
    requires
        text_le(a, b),
        text_le(b, c),
    ensures
        text_le(a, c),
    decreases a.len(),
{
    if a.len() > 0 && b.len() > 0 && c.len() > 0 && (a[0] as u32) == (b[0] as u32) && (b[0] as u32)
        == (c[0] as u32) {
        lemma_text_le_trans(a.drop_first(), b.drop_first(), c.drop_first());
    }
}

proof fn lemma_item_le_total(x: ItemView, y: ItemView)
    ensures
        item_le(x, y) || item_le(y, x),
{
    lemma_text_le_total(x.name, y.name);
}

proof fn lemma_item_le_trans(x: ItemView, y: ItemView, z: ItemView)
    requires
        item_le(x, y),
        item_le(y, z),
    ensures
        item_le(x, z),
{
    if has_worktree(x.status) == has_worktree(y.status) && has_worktree(y.status) == has_worktree(
        z.status,
    ) {
        lemma_text_le_trans(x.name, y.name, z.name);
    }
}

/// Relies on `str`'s `<=`: byte order, which is character order for UTF-8 text.
#[verifier::external_body]
fn text_at_most(a: &str, b: &str) -> (r: bool)
    ensures
        r == text_le(a@, b@),
{
    a <= b
}

/// Whether `x` goes before or with `y` in list order.
fn item_at_most(x: &BranchItem, y: &BranchItem) -> (r: bool)
    ensures
        r == item_le(x@, y@),
{
    let xa = matches!(x.status, BranchStatus::LocalActive | BranchStatus::LocalPrunable);
    let ya = matches!(y.status, BranchStatus::LocalActive | BranchStatus::LocalPrunable);
    if xa != ya {
        xa
    } else {
        text_at_most(x.name.as_str(), y.name.as_str())
    }
}

/// Puts `item` into the ordered `v`, after the items that go before or with it.
fn insert_in_order(v: &mut Vec<BranchItem>, item: BranchItem)
    requires
        in_list_order(item_views(old(v)@)),
    ensures
        in_list_order(item_views(final(v)@)),
        item_views(final(v)@).to_multiset() == item_views(old(v)@).to_multiset().insert(item@),
{
    let mut p: usize = 0;
    while p < v.len() && item_at_most(&v[p], &item)
        invariant
            p <= v.len(),
            v@ == old(v)@,
            forall|i: int| 0 <= i < p ==> item_le(item_views(v@)[i], item@),
        decreases v.len() - p,
    {
        p = p + 1;
    }
    let ghost s = item_views(v@);
    let ghost x = item@;
    proof {
        if p < s.len() {
            assert(!item_le(s[p as int], x));
            lemma_item_le_total(s[p as int], x);
        }
    }
    v.insert(p, item);
    let ghost t = item_views(v@);
    proof {
        assert(t =~= s.insert(p as int, x));
        assert forall|i: int, j: int| 0 <= i < j < t.len() implies item_le(t[i], t[j]) by {
            if j < p {
                assert(t[i] == s[i] && t[j] == s[j]);
            } else if j == p {
                assert(t[i] == s[i]);
            } else if i < p {
                assert(t[i] == s[i] && t[j] == s[j - 1]);
                if j - 1 > p {
                    lemma_item_le_trans(x, s[p as int], s[j - 1]);
                }
                lemma_item_le_trans(s[i], x, s[j - 1]);
            } else if i == p {
                assert(t[j] == s[j - 1]);
                if j - 1 > p {
                    lemma_item_le_trans(x, s[p as int], s[j - 1]);
                }
            } else {
                assert(t[i] == s[i - 1] && t[j] == s[j - 1]);
            }
        }
        assert(t.remove(p as int) =~= s);
        broadcast use vstd::seq_lib::group_to_multiset_ensures;
        assert(t.remove(p as int).to_multiset() =~= t.to_multiset().remove(x));
        assert(t.to_multiset().count(x) > 0) by {
            assert(t[p as int] == x);
            assert(t.contains(x));
        }
        assert(t.to_multiset() =~= s.to_multiset().insert(x));
    }
}

/// The status of branch `n` in the list: untracked first, else by its first
/// worktree, else on the remote only.
pub open spec fn status_of(n: Seq<char>, worktrees: Seq<InfoView>, untracked: Seq<Seq<char>>) -> BranchStatus {
    if untracked.contains(n) {
        BranchStatus::Untracked
    } else if exists|k: int| 0 <= k < worktrees.len() && worktrees[k].branch == Some(n) {
        let k = choose|k: int|
            0 <= k < worktrees.len() && worktrees[k].branch == Some(n) && forall|j: int|
                0 <= j < k ==> worktrees[j].branch != Some(n);
        if worktrees[k].is_prunable {
            BranchStatus::LocalPrunable
        } else {
            BranchStatus::LocalActive
        }
    } else {
        BranchStatus::Remote
    }
}

/// The list item of branch `n`.
pub open spec fn item_of(n: Seq<char>, worktrees: Seq<InfoView>, config: Config) -> ItemView {
    ItemView {
        name: n,
        status: status_of(n, worktrees, views(config.untracked_branches@)),
        is_default: opt_view(config.base_branch) == Some(n),
    }
}

/// The status of branch `n`.
fn branch_status(n: &str, worktrees: &Vec<WorktreeInfo>, config: &Config) -> (r: BranchStatus)
    ensures
        r == status_of(n@, info_views(worktrees@), views(config.untracked_branches@)),
{
    if holds_text(&config.untracked_branches, n) {
        return BranchStatus::Untracked;
    }
    let ghost ws = info_views(worktrees@);
    let mut k: usize = 0;
    while k < worktrees.len()
        invariant
            k <= worktrees.len(),
            ws == info_views(worktrees@),
            !views(config.untracked_branches@).contains(n@),
            forall|j: int| 0 <= j < k ==> ws[j].branch != Some(n@),
        decreases worktrees.len() - k,
    {
        let found = match &worktrees[k].branch {
            Some(b) => same_text(b.as_str(), n),
            None => false,
        };
        assert(ws[k as int] == worktrees@[k as int]@);
        if found {
            proof {
                assert(ws[k as int].branch == Some(n@));
                assert(exists|c: int| 0 <= c < ws.len() && ws[c].branch == Some(n@));
                assert(0 <= k < ws.len() && ws[k as int].branch == Some(n@) && forall|j: int|
                    0 <= j < k ==> ws[j].branch != Some(n@));
                let c = choose|c: int|
                    0 <= c < ws.len() && ws[c].branch == Some(n@) && forall|j: int|
                        0 <= j < c ==> ws[j].branch != Some(n@);
                if c < k {
                    assert(ws[c].branch != Some(n@));
                }
                if c > k {
                    assert(ws[k as int].branch != Some(n@));
                }
                assert(c == k);
            }
            return if worktrees[k].is_prunable {
                BranchStatus::LocalPrunable
            } else {
                BranchStatus::LocalActive
            };
        }
        k = k + 1;
    }
    BranchStatus::Remote
}

/// The items of the branches `names`, with worktrees first and then by name.
pub fn branch_items(names: &Vec<String>, worktrees: &Vec<WorktreeInfo>, config: &Config) -> (r:
    Vec<BranchItem>)
    ensures
        in_list_order(item_views(r@)),
        item_views(r@).to_multiset() == views(names@).map_values(
            |n: Seq<char>| item_of(n, info_views(worktrees@), *config),
        ).to_multiset(),
{
    let ghost f = |n: Seq<char>| item_of(n, info_views(worktrees@), *config);
    let mut r: Vec<BranchItem> = Vec::new();
    let mut i: usize = 0;
    proof {
        broadcast use vstd::seq_lib::group_to_multiset_ensures;
        assert(views(names@).subrange(0, 0).map_values(f) =~= Seq::<ItemView>::empty());
        assert(item_views(r@) =~= Seq::<ItemView>::empty());
    }
    while i < names.len()
        invariant
            i <= names.len(),
            f == (|n: Seq<char>| item_of(n, info_views(worktrees@), *config)),
            in_list_order(item_views(r@)),
            item_views(r@).to_multiset() == views(names@).subrange(0, i as int).map_values(
                f,
            ).to_multiset(),
        decreases names.len() - i,
    {
        let n = names[i].as_str();
        let status = branch_status(n, worktrees, config);
        let is_default = match &config.base_branch {
            Some(b) => same_text(b.as_str(), n),
            None => false,
        };
        let item = BranchItem { name: names[i].clone(), status, is_default };
        assert(item@ == f(names@[i as int]@));
        insert_in_order(&mut r, item);
        proof {
            broadcast use vstd::seq_lib::group_to_multiset_ensures;
            assert(views(names@).subrange(0, i + 1).map_values(f) =~= views(names@).subrange(
                0,
                i as int,
            ).map_values(f).push(f(names@[i as int]@)));
        }
        i = i + 1;
    }
    assert(views(names@).subrange(0, names.len() as int) == views(names@));
    r
}

/// The branch list with its selection (a position in `items`, if any).
#[derive(Debug, Clone)]
pub struct BranchListState {
    pub selected: Option<usize>,
    pub items: Vec<BranchItem>,
}

impl BranchListState {
    /// An empty list with nothing selected.
    pub fn new() -> (r: Self)
        ensures
            r.selected is None,
            r.items@.len() == 0,
    {
        BranchListState { selected: None, items: Vec::new() }
    }

    /// Selects the next item, from the last back to the first; the first when
    /// nothing was selected. An empty list stays as it is.
    pub fn select_next(&mut self)
        ensures
            final(self).items == old(self).items,
            old(self).items@.len() == 0 ==> final(self).selected == old(self).selected,
            old(self).items@.len() > 0 ==> final(self).selected == Some(
                match old(self).selected {
                    Some(i) => if i + 1 >= old(self).items@.len() {
                        0usize
                    } else {
                        (i + 1) as usize
                    },
                    None => 0usize,
                },
            ),
    {
        if self.items.len() == 0 {
            return;
        }
        let i = match self.selected {
            Some(i) => if i >= self.items.len() - 1 {
                0
            } else {
                i + 1
            },
            None => 0,
        };
        self.selected = Some(i);
    }

    /// Selects the previous item, from the first round to the last; the first when
    /// nothing was selected. An empty list stays as it is.
    pub fn select_previous(&mut self)
        ensures
            final(self).items == old(self).items,
            old(self).items@.len() == 0 ==> final(self).selected == old(self).selected,
            old(self).items@.len() > 0 ==> final(self).selected == Some(
                match old(self).selected {
                    Some(i) => if i == 0 {
                        (old(self).items@.len() - 1) as usize
                    } else {
                        (i - 1) as usize
                    },
                    None => 0usize,
                },
            ),
    {
        if self.items.len() == 0 {
            return;
        }
        let i = match self.selected {
            Some(i) => if i == 0 {
                self.items.len() - 1
            } else {
                i - 1
            },
            None => 0,
        };
        self.selected = Some(i);
    }

    /// The selected item, if the selection is in the list.
    pub fn selected(&self) -> (r: Option<&BranchItem>)
        ensures
            match self.selected {
                Some(i) if i < self.items@.len() => r == Some(&self.items@[i as int]),
                _ => r is None,
            },
    {
        match self.selected {
            Some(i) => if i < self.items.len() {
                Some(&self.items[i])
            } else {
                None
            },
            None => None,
        }
    }

    /// The name of the selected item, if any.
    pub fn selected_branch(&self) -> (r: Option<String>)
        ensures
            match self.selected {
                Some(i) if i < self.items@.len() => (r matches Some(s) && s@
                    == self.items@[i as int].name@),
                _ => r is None,
            },
    {
        match self.selected() {
            Some(item) => Some(item.name.clone()),
            None => None,
        }
    }

    /// The position of the first item named `name`, if any.
    fn position(&self, name: &str) -> (r: Option<usize>)
        ensures
            r is None ==> forall|j: int| 0 <= j < self.items@.len() ==> self.items@[j].name@ != name@,
            r matches Some(k) ==> k < self.items@.len() && self.items@[k as int].name@ == name@
                && forall|j: int| 0 <= j < k ==> self.items@[j].name@ != name@,
    {
        let mut i: usize = 0;
        while i < self.items.len()
            invariant
                i <= self.items@.len(),
                forall|j: int| 0 <= j < i ==> self.items@[j].name@ != name@,
            decreases self.items.len() - i,
        {
            if same_text(self.items[i].name.as_str(), name) {
                return Some(i);
            }
            i = i + 1;
        }
        None
    }

    /// Selects the first item named `name`; without one, nothing changes.
    pub fn select_by_name(&mut self, name: &str)
        ensures
            final(self).items == old(self).items,
            (forall|j: int| 0 <= j < old(self).items@.len() ==> old(self).items@[j].name@ != name@)
                ==> final(self).selected == old(self).selected,
            final(self).selected != old(self).selected ==> (final(self).selected matches Some(k)
                && k < old(self).items@.len() && old(self).items@[k as int].name@ == name@
                && forall|j: int| 0 <= j < k ==> old(self).items@[j].name@ != name@),
    {
        if let Some(idx) = self.position(name) {
            self.selected = Some(idx);
        }
    }

    /// Replaces the items and keeps the selected branch selected where it is still
    /// listed; else selects the first item if nothing was selected.
    pub fn update_items(&mut self, items: Vec<BranchItem>)
        ensures
            final(self).items == items,
            ({
                let old_sel = match old(self).selected {
                    Some(i) if i < old(self).items@.len() => Some(old(self).items@[i as int].name@),
                    _ => None,
                };
                let found = old_sel is Some && exists|j: int|
                    0 <= j < items@.len() && items@[j].name@ == old_sel->0;
                if found {
                    (final(self).selected matches Some(k) && k < items@.len() && items@[k as int].name@
                        == old_sel->0 && forall|j: int| 0 <= j < k ==> items@[j].name@ != old_sel->0)
                } else if old(self).selected is None && items@.len() > 0 {
                    final(self).selected == Some(0usize)
                } else {
                    final(self).selected == old(self).selected
                }
            }),
    {
        let selected_name = self.selected_branch();
        self.items = items;
        if let Some(name) = selected_name {
            if let Some(idx) = self.position(name.as_str()) {
                self.selected = Some(idx);
                return;
            }
        }
        if self.selected.is_none() && self.items.len() > 0 {
            self.selected = Some(0);
        }
    }
}

impl Default for BranchListState {
    fn default() -> (r: BranchListState)
        ensures
            r.selected is None,
            r.items@.len() == 0,
    {
        BranchListState::new()
    }
}

} // verus!
