//! State of the interactive screens: the view shown, the two-step dialog that
//! makes a new worktree, the first-run setup wizard, and the settings screen.

use vstd::prelude::*;
use crate::text::{contains, has_infix, lowered, same_text, to_lower, views};

verus! {

/// The view shown.
#[derive(Debug, Clone, PartialEq, Eq)]
pub enum ViewMode {
    /// The branch list.
    Main,
    /// The logs, full screen.
    Logs,
    /// The help overlay.
    Help,
    /// A fatal error; the program must end.
    Error(String),
    /// The first-run setup wizard.
    Setup,
    /// The settings screen.
    Settings,
    /// Asks to confirm deleting a worktree.
    DeleteConfirm {
        /// Branch whose worktree would go.
        branch: String,
        /// What was typed; it must be `yes` to go on.
        input: String,
    },
    /// The dialog that makes a new worktree.
    CreateWorktree(CreateWorktreeState),
}

/// The step of the new-worktree dialog.
#[derive(Debug, Clone, Copy, PartialEq, Eq, Structural)]
pub enum CreateWorktreeStep {
    /// Pick the branch to start from, with a search filter.
    SelectBaseBranch,
    /// Type the new branch's name.
    EnterBranchName,
}

/// The new-worktree dialog.
#[derive(Debug, Clone, PartialEq, Eq)]
pub struct CreateWorktreeState {
    /// The step shown.
    pub step: CreateWorktreeStep,
    /// Every branch that can be started from.
    pub base_branches: Vec<String>,
    /// Position of the highlighted branch in the filtered list.
    pub selected_base_index: usize,
    /// The search filter.
    pub base_branch_filter: String,
    /// The branch picked in the first step.
    pub selected_base: Option<String>,
    /// The new branch's name as typed.
    pub new_branch_name: String,
    /// The default branch, shown as a hint.
    pub default_branch: Option<String>,
}

/// The position of the first `d` in `v`, or none.
pub open spec fn position_of(v: Seq<Seq<char>>, d: Seq<char>) -> Option<int> {
    if v.contains(d) {
        Some(choose|k: int| 0 <= k < v.len() && v[k] == d && forall|j: int| 0 <= j < k ==> v[j] != d)
    } else {
        None
    }
}

/// The branches of `all` whose lower-case name holds the lower-case `filter`; all
/// of them when the filter is empty.
pub open spec fn filtered(all: Seq<Seq<char>>, filter: Seq<char>) -> Seq<Seq<char>>
    decreases all.len(),
{
    if filter.len() == 0 {
        all
    } else if all.len() == 0 {
        Seq::empty()
    } else {
        let prev = filtered(all.drop_last(), filter);
        if has_infix(lowered(all.last()), lowered(filter)) {
            prev.push(all.last())
        } else {
            prev
        }
    }
}

/// The position of the first `d` in `v`, if any.
fn find_text(v: &Vec<String>, d: &str) -> (r: Option<usize>)
    ensures
        r matches Some(k) ==> position_of(views(v@), d@) == Some(k as int),
        r is None ==> position_of(views(v@), d@) is None,
{
    let mut i: usize = 0;
    while i < v.len()
        invariant
            i <= v.len(),
            forall|j: int| 0 <= j < i ==> v@[j]@ != d@,
        decreases v.len() - i,
    {
        if same_text(v[i].as_str(), d) {
            let ghost s = views(v@);
            assert(s[i as int] == d@);
            assert(s.contains(d@));
            let ghost k = choose|k: int|
                0 <= k < s.len() && s[k] == d@ && forall|j: int| 0 <= j < k ==> s[j] != d@;
            assert(k == i) by {
                if k < i {
                    assert(v@[k]@ == d@);
                }
                if k > i {
                    assert(s[i as int] == d@);
                }
            }
            return Some(i);
        }
        i = i + 1;
    }
    assert(!views(v@).contains(d@)) by {
        if views(v@).contains(d@) {
            let k = choose|k: int| 0 <= k < views(v@).len() && views(v@)[k] == d@;
            assert(v@[k]@ == d@);
        }
    }
    None
}

impl CreateWorktreeState {
    /// The dialog at its first step, with the default branch highlighted when it is
    /// one of `base_branches` (else the first).
    pub fn new(base_branches: Vec<String>, default_branch: Option<&str>) -> (r: Self)
        ensures
            r.step == CreateWorktreeStep::SelectBaseBranch,
            views(r.base_branches@) == views(base_branches@),
            r.selected_base_index as int == match default_branch {
                Some(d) => match position_of(views(base_branches@), d@) {
                    Some(k) => k,
                    None => 0,
                },
                None => 0,
            },
            r.base_branch_filter@.len() == 0,
            r.selected_base is None,
            r.new_branch_name@.len() == 0,
            match default_branch {
                Some(d) => r.default_branch matches Some(s) && s@ == d@,
                None => r.default_branch is None,
            },
    {
        let selected_base_index = match default_branch {
            Some(d) => match find_text(&base_branches, d) {
                Some(k) => k,
                None => 0,
            },
            None => 0,
        };
        let default_branch = match default_branch {
            Some(d) => Some(String::from_str(d)),
            None => None,
        };
        CreateWorktreeState {
            step: CreateWorktreeStep::SelectBaseBranch,
            base_branches,
            selected_base_index,
            base_branch_filter: String::new(),
            selected_base: None,
            new_branch_name: String::new(),
            default_branch,
        }
    }

    /// The branches that pass the search filter, in order.
    pub fn filtered_branches(&self) -> (r: Vec<&String>)
        ensures
            r@.len() == filtered(views(self.base_branches@), self.base_branch_filter@).len(),
            forall|i: int|
                0 <= i < r@.len() ==> r@[i]@ == filtered(
                    views(self.base_branches@),
                    self.base_branch_filter@,
                )[i],
    {
        let ghost all = views(self.base_branches@);
        let ghost f = self.base_branch_filter@;
        let mut r: Vec<&String> = Vec::new();
        let filter_lower = to_lower(self.base_branch_filter.as_str());
        let empty = self.base_branch_filter.as_str().is_empty();
        let mut i: usize = 0;
        while i < self.base_branches.len()
            invariant
                i <= self.base_branches.len(),
                all == views(self.base_branches@),
                f == self.base_branch_filter@,
                empty == (f.len() == 0),
                filter_lower@ == lowered(f),
                r@.len() == filtered(all.subrange(0, i as int), f).len(),
                forall|j: int|
                    0 <= j < r@.len() ==> r@[j]@ == filtered(all.subrange(0, i as int), f)[j],
            decreases self.base_branches.len() - i,
        {
            let b = &self.base_branches[i];
            let ghost pre = all.subrange(0, i + 1);
            proof {
                assert(pre.drop_last() == all.subrange(0, i as int));
                assert(pre.last() == b@);
            }
            if empty {
                r.push(b);
                proof {
                    assert(filtered(pre, f) == pre);
                    assert(filtered(all.subrange(0, i as int), f) == all.subrange(0, i as int));
                }
            } else {
                let lower = to_lower(b.as_str());
                if contains(lower.as_str(), filter_lower.as_str()) {
                    r.push(b);
                }
            }
            i = i + 1;
        }
        assert(all.subrange(0, self.base_branches.len() as int) == all);
        r
    }

    /// The highlighted branch of the filtered list, if the highlight is in it.
    pub fn highlighted_base_branch(&self) -> (r: Option<&str>)
        ensures
            ({
                let fl = filtered(views(self.base_branches@), self.base_branch_filter@);
                if (self.selected_base_index as int) < fl.len() {
                    r matches Some(s) && s@ == fl[self.selected_base_index as int]
                } else {
                    r is None
                }
            }),
    {
        let filtered = self.filtered_branches();
        if self.selected_base_index < filtered.len() {
            Some(filtered[self.selected_base_index].as_str())
        } else {
            None
        }
    }

    /// The filter changed: the highlight goes back to the top.
    pub fn on_filter_changed(&mut self)
        ensures
            *final(self) == (CreateWorktreeState { selected_base_index: 0, ..*old(self) }),
    {
        self.selected_base_index = 0;
    }

    /// Goes from the first step to the second, with the highlighted branch picked;
    /// false, with nothing changed, at the second step or with no branch highlighted.
    pub fn next_step(&mut self) -> (r: bool)
        ensures
            ({
                let fl = filtered(views(old(self).base_branches@), old(self).base_branch_filter@);
                r == (old(self).step == CreateWorktreeStep::SelectBaseBranch
                    && (old(self).selected_base_index as int) < fl.len())
            }),
            r ==> {
                &&& final(self).step == CreateWorktreeStep::EnterBranchName
                &&& final(self).selected_base matches Some(s) && s@ == filtered(
                    views(old(self).base_branches@),
                    old(self).base_branch_filter@,
                )[old(self).selected_base_index as int]
                &&& final(self).base_branches == old(self).base_branches
                &&& final(self).selected_base_index == old(self).selected_base_index
                &&& final(self).base_branch_filter == old(self).base_branch_filter
                &&& final(self).new_branch_name == old(self).new_branch_name
                &&& final(self).default_branch == old(self).default_branch
            },
            !r ==> *final(self) == *old(self),
    {
        match self.step {
            CreateWorktreeStep::SelectBaseBranch => {
                let picked = match self.highlighted_base_branch() {
                    Some(branch) => Some(String::from_str(branch)),
                    None => None,
                };
                match picked {
                    Some(b) => {
                        self.selected_base = Some(b);
                        self.step = CreateWorktreeStep::EnterBranchName;
                        true
                    },
                    None => false,
                }
            },
            CreateWorktreeStep::EnterBranchName => false,
        }
    }

    /// Goes back from the second step to the first; at the first, nothing changes.
    pub fn prev_step(&mut self)
        ensures
            *final(self) == (CreateWorktreeState {
                step: CreateWorktreeStep::SelectBaseBranch,
                ..*old(self)
            }),
    {
        match self.step {
            CreateWorktreeStep::SelectBaseBranch => {},
            CreateWorktreeStep::EnterBranchName => {
                self.step = CreateWorktreeStep::SelectBaseBranch;
            },
        }
    }
}

/// The step of the setup wizard.
#[derive(Debug, Clone, Copy, PartialEq, Eq, Structural)]
pub enum SetupStep {
    Remote,
    PollInterval,
    WorktreeBaseDir,
    BaseBranch,
    PostCreateCommand,
    AutoCreate,
    Confirm,
}

/// The setup wizard.
#[derive(Debug, Clone)]
pub struct SetupState {
    pub step: SetupStep,
    pub remotes: Vec<String>,
    pub branches: Vec<String>,
    pub selected_index: usize,
    pub remote_name: String,
    pub poll_interval: u64,
    pub worktree_base_dir: String,
    pub base_branch: Option<String>,
    pub post_create_command: Option<String>,
    pub auto_create: bool,
}

impl SetupState {
    /// The wizard at its first step, with the default answers.
    pub fn new() -> (r: Self)
        ensures
            r.step == SetupStep::Remote,
            r.remotes@.len() == 0,
            r.branches@.len() == 0,
            r.selected_index == 0,
            r.remote_name@ == "origin"@,
            r.poll_interval == 10,
            r.worktree_base_dir@ == ".."@,
            r.base_branch is None,
            r.post_create_command is None,
            !r.auto_create,
    {
        SetupState {
            step: SetupStep::Remote,
            remotes: Vec::new(),
            branches: Vec::new(),
            selected_index: 0,
            remote_name: String::from_str("origin"),
            poll_interval: 10,
            worktree_base_dir: String::from_str(".."),
            base_branch: None,
            post_create_command: None,
            auto_create: false,
        }
    }
}

/// A field of the settings screen.
#[derive(Debug, Clone, Copy, PartialEq, Eq, Structural)]
pub enum SettingsField {
    Remote,
    PollInterval,
    WorktreeBaseDir,
    BaseBranch,
    PostCreateCommand,
    AutoCreate,
}

/// The fields in screen order.
pub open spec fn field_order() -> Seq<SettingsField> {
    seq![
        SettingsField::Remote,
        SettingsField::PollInterval,
        SettingsField::WorktreeBaseDir,
        SettingsField::BaseBranch,
        SettingsField::PostCreateCommand,
        SettingsField::AutoCreate,
    ]
}

impl SettingsField {
    /// Every field, in screen order.
    pub fn all() -> (r: Vec<SettingsField>)
        ensures
            r@ == field_order(),
    {
        let r = vec![
            SettingsField::Remote,
            SettingsField::PollInterval,
            SettingsField::WorktreeBaseDir,
            SettingsField::BaseBranch,
            SettingsField::PostCreateCommand,
            SettingsField::AutoCreate,
        ];
        assert(r@ =~= field_order());
        r
    }

    /// The position of this field on the screen.
    pub fn index(&self) -> (r: usize)
        ensures
            r < 6,
            field_order()[r as int] == *self,
    {
        match self {
            SettingsField::Remote => 0,
            SettingsField::PollInterval => 1,
            SettingsField::WorktreeBaseDir => 2,
            SettingsField::BaseBranch => 3,
            SettingsField::PostCreateCommand => 4,
            SettingsField::AutoCreate => 5,
        }
    }

    /// The field at screen position `index`; the first for a position past the end.
    pub fn from_index(index: usize) -> (r: Self)
        ensures
            index < 6 ==> r == field_order()[index as int],
            index >= 6 ==> r == SettingsField::Remote,
    {
        match index {
            0 => SettingsField::Remote,
            1 => SettingsField::PollInterval,
            2 => SettingsField::WorktreeBaseDir,
            3 => SettingsField::BaseBranch,
            4 => SettingsField::PostCreateCommand,
            5 => SettingsField::AutoCreate,
            _ => SettingsField::Remote,
        }
    }
}

/// The settings screen.
#[derive(Debug, Clone)]
pub struct SettingsState {
    pub selected_field: SettingsField,
    pub editing: bool,
    pub edit_value: String,
    pub remotes: Vec<String>,
    pub branches: Vec<String>,
    pub list_index: usize,
}

impl SettingsState {
    /// The screen with the first field selected and nothing being edited.
    pub fn new() -> (r: Self)
        ensures
            r.selected_field == SettingsField::Remote,
            !r.editing,
            r.edit_value@.len() == 0,
            r.remotes@.len() == 0,
            r.branches@.len() == 0,
            r.list_index == 0,
    {
        SettingsState {
            selected_field: SettingsField::Remote,
            editing: false,
            edit_value: String::new(),
            remotes: Vec::new(),
            branches: Vec::new(),
            list_index: 0,
        }
    }
}

impl Default for SetupState {
    fn default() -> (r: SetupState)
        ensures
            r.step == SetupStep::Remote,
            r.selected_index == 0,
            r.remote_name@ == "origin"@,
            r.poll_interval == 10,
            r.worktree_base_dir@ == ".."@,
            !r.auto_create,
    {
        SetupState::new()
    }
}

impl Default for SettingsState {
    fn default() -> (r: SettingsState)
        ensures
            r.selected_field == SettingsField::Remote,
            !r.editing,
            r.list_index == 0,
    {
        SettingsState::new()
    }
}

} // verus!
