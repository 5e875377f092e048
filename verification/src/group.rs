use vstd::prelude::*;
use crate::collaborator_errors::{GroupRepositoryError, UserRepositoryError};
use crate::text::{sort_texts, text_order};
use crate::text::{opt_sstr_view, opt_str_view, opt_to_string, opt_ref_view, pairs_view, strings_view};

verus! {
#[derive(Debug, Clone, PartialEq, Eq)]
pub struct CreateGroupInput {
    workspace_id: String,
    name: String,
}

impl View for CreateGroupInput {
    type V = (Seq<char>, Seq<char>);

    closed spec fn view(&self) -> (Seq<char>, Seq<char>) {
        (self.workspace_id@, self.name@)
    }
}

impl CreateGroupInput {
    pub fn new(workspace_id: &str, name: &str) -> (result: Self)
        ensures
            result@ == (workspace_id@, name@),
    {
        Self {
            workspace_id: workspace_id.to_string(),
            name: name.to_string(),
        }
    }

}

#[derive(Debug, Clone, PartialEq, Eq)]
pub struct AddUserToGroupInput {
    workspace_id: String,
    group_id: String,
    user_id: String,
}

impl View for AddUserToGroupInput {
    type V = (Seq<char>, Seq<char>, Seq<char>);

    closed spec fn view(&self) -> (Seq<char>, Seq<char>, Seq<char>) {
        (self.workspace_id@, self.group_id@, self.user_id@)
    }
}

impl AddUserToGroupInput {
    pub fn new(workspace_id: &str, group_id: &str, user_id: &str) -> (result: Self)
        ensures
            result@ == (workspace_id@, group_id@, user_id@),
    {
        Self {
            workspace_id: workspace_id.to_string(),
            group_id: group_id.to_string(),
            user_id: user_id.to_string(),
        }
    }

}

#[derive(Debug, Clone, PartialEq, Eq)]
pub struct AddUserToGroupOutput {
    group_id: String,
    user_id: String,
    result: GroupMembershipResult,
}

impl View for AddUserToGroupOutput {
    type V = (Seq<char>, Seq<char>, GroupMembershipResult);

    closed spec fn view(&self) -> (Seq<char>, Seq<char>, GroupMembershipResult) {
        (self.group_id@, self.user_id@, self.result)
    }
}

impl AddUserToGroupOutput {
    pub fn new(group_id: &str, user_id: &str, result: GroupMembershipResult) -> (made: Self)
        ensures
            made@ == (group_id@, user_id@, result),
    {
        Self {
            group_id: group_id.to_string(),
            user_id: user_id.to_string(),
            result: result,
        }
    }

    pub fn group_id(&self) -> (result: &str)
        ensures
            result@ == self@.0,
    {
        self.group_id.as_str()
    }

    pub fn user_id(&self) -> (result: &str)
        ensures
            result@ == self@.1,
    {
        self.user_id.as_str()
    }

    pub fn result(&self) -> (result: GroupMembershipResult)
        ensures
            result == self@.2,
    {
        self.result
    }

}

#[derive(Debug, Clone, PartialEq, Eq)]
pub struct RemoveUserFromGroupInput {
    workspace_id: String,
    group_id: String,
    user_id: String,
}

impl View for RemoveUserFromGroupInput {
    type V = (Seq<char>, Seq<char>, Seq<char>);

    closed spec fn view(&self) -> (Seq<char>, Seq<char>, Seq<char>) {
        (self.workspace_id@, self.group_id@, self.user_id@)
    }
}

impl RemoveUserFromGroupInput {
    pub fn new(workspace_id: &str, group_id: &str, user_id: &str) -> (result: Self)
        ensures
            result@ == (workspace_id@, group_id@, user_id@),
    {
        Self {
            workspace_id: workspace_id.to_string(),
            group_id: group_id.to_string(),
            user_id: user_id.to_string(),
        }
    }

}

#[derive(Debug, Clone, PartialEq, Eq)]
pub struct RemoveUserFromGroupOutput {
    group_id: String,
    user_id: String,
    result: GroupMembershipResult,
}

impl View for RemoveUserFromGroupOutput {
    type V = (Seq<char>, Seq<char>, GroupMembershipResult);

    closed spec fn view(&self) -> (Seq<char>, Seq<char>, GroupMembershipResult) {
        (self.group_id@, self.user_id@, self.result)
    }
}

impl RemoveUserFromGroupOutput {
    pub fn new(group_id: &str, user_id: &str, result: GroupMembershipResult) -> (made: Self)
        ensures
            made@ == (group_id@, user_id@, result),
    {
        Self {
            group_id: group_id.to_string(),
            user_id: user_id.to_string(),
            result: result,
        }
    }

    pub fn group_id(&self) -> (result: &str)
        ensures
            result@ == self@.0,
    {
        self.group_id.as_str()
    }

    pub fn user_id(&self) -> (result: &str)
        ensures
            result@ == self@.1,
    {
        self.user_id.as_str()
    }

    pub fn result(&self) -> (result: GroupMembershipResult)
        ensures
            result == self@.2,
    {
        self.result
    }

}

#[derive(Debug, Clone, PartialEq, Eq)]
pub struct ListWorkspaceMembersInput {
    workspace_id: String,
}

impl View for ListWorkspaceMembersInput {
    type V = Seq<char>;

    closed spec fn view(&self) -> Seq<char> {
        self.workspace_id@
    }
}

impl ListWorkspaceMembersInput {
    pub fn new(workspace_id: &str) -> (result: Self)
        ensures
            result@ == workspace_id@,
    {
        Self {
            workspace_id: workspace_id.to_string(),
        }
    }

}

#[derive(Debug, Clone, PartialEq, Eq)]
pub struct ListWorkspaceMembersOutput {
    members: Vec<WorkspaceMemberDto>,
}

impl View for ListWorkspaceMembersOutput {
    type V = Seq<<WorkspaceMemberDto as View>::V>;

    closed spec fn view(&self) -> Seq<<WorkspaceMemberDto as View>::V> {
        self.members@.map_values(|x: WorkspaceMemberDto| x@)
    }
}

impl ListWorkspaceMembersOutput {
    pub fn new(members: Vec<WorkspaceMemberDto>) -> (result: Self)
        ensures
            result@ == members@.map_values(|x: WorkspaceMemberDto| x@),
    {
        Self {
            members: members,
        }
    }

    pub fn members(&self) -> (result: &[WorkspaceMemberDto])
        ensures
            result@.map_values(|x: WorkspaceMemberDto| x@) == self@,
    {
        self.members.as_slice()
    }

}

#[derive(Debug, Clone, PartialEq, Eq)]
pub struct WorkspaceMemberDto {
    group_id: String,
    user_id: String,
}

impl View for WorkspaceMemberDto {
    type V = (Seq<char>, Seq<char>);

    closed spec fn view(&self) -> (Seq<char>, Seq<char>) {
        (self.group_id@, self.user_id@)
    }
}

impl WorkspaceMemberDto {
    pub fn new(group_id: &str, user_id: &str) -> (result: Self)
        ensures
            result@ == (group_id@, user_id@),
    {
        Self {
            group_id: group_id.to_string(),
            user_id: user_id.to_string(),
        }
    }

    pub fn group_id(&self) -> (result: &str)
        ensures
            result@ == self@.0,
    {
        self.group_id.as_str()
    }

    pub fn user_id(&self) -> (result: &str)
        ensures
            result@ == self@.1,
    {
        self.user_id.as_str()
    }

}

#[derive(Debug, Clone, Copy, PartialEq, Eq, Structural)]
pub enum GroupMembershipResult {
    Added,
    AlreadyMember,
    Removed,
}

#[derive(Debug, Clone, PartialEq, Eq)]
pub enum CreateGroupProductEvent {
    GroupCreated { workspace_id: String, masked_group_id: String, member_count: usize },
    MembershipAdded { workspace_id: String, masked_group_id: String, masked_user_id: String, member_count: usize },
    MembershipRemoved { workspace_id: String, masked_group_id: String, masked_user_id: String, member_count: usize },
    UsecaseFailed { error_code: &'static str },
}

/// [`CreateGroupProductEvent`] with its texts as character sequences.
pub enum CreateGroupProductEventView {
    GroupCreated { workspace_id: Seq<char>, masked_group_id: Seq<char>, member_count: usize },
    MembershipAdded { workspace_id: Seq<char>, masked_group_id: Seq<char>, masked_user_id: Seq<char>, member_count: usize },
    MembershipRemoved { workspace_id: Seq<char>, masked_group_id: Seq<char>, masked_user_id: Seq<char>, member_count: usize },
    UsecaseFailed { error_code: Seq<char> },
}

impl View for CreateGroupProductEvent {
    type V = CreateGroupProductEventView;

    open spec fn view(&self) -> CreateGroupProductEventView {
        match self {
            CreateGroupProductEvent::GroupCreated { workspace_id, masked_group_id, member_count } => CreateGroupProductEventView::GroupCreated { workspace_id: workspace_id@, masked_group_id: masked_group_id@, member_count: *member_count },
            CreateGroupProductEvent::MembershipAdded { workspace_id, masked_group_id, masked_user_id, member_count } => CreateGroupProductEventView::MembershipAdded { workspace_id: workspace_id@, masked_group_id: masked_group_id@, masked_user_id: masked_user_id@, member_count: *member_count },
            CreateGroupProductEvent::MembershipRemoved { workspace_id, masked_group_id, masked_user_id, member_count } => CreateGroupProductEventView::MembershipRemoved { workspace_id: workspace_id@, masked_group_id: masked_group_id@, masked_user_id: masked_user_id@, member_count: *member_count },
            CreateGroupProductEvent::UsecaseFailed { error_code } => CreateGroupProductEventView::UsecaseFailed { error_code: error_code@ },
        }
    }
}

impl CreateGroupProductEvent {
    pub fn usecase_failed(error_code: &'static str) -> (result: Self)
        ensures
            result@ == (CreateGroupProductEventView::UsecaseFailed { error_code: error_code@ }),
    {
        CreateGroupProductEvent::UsecaseFailed { error_code: error_code }
    }

}

impl CreateGroupProductEvent {
    pub fn event_name(&self) -> (result: &'static str)
        ensures
            result@ == match self@ {
                CreateGroupProductEventView::GroupCreated { .. } => "group.created"@,
                CreateGroupProductEventView::MembershipAdded { .. } => "group.membership.added"@,
                CreateGroupProductEventView::MembershipRemoved { .. } => "group.membership.removed"@,
                CreateGroupProductEventView::UsecaseFailed { .. } => "group.usecase.failed"@,
            },
    {
        match self {
            Self::GroupCreated { .. } => "group.created",
            Self::MembershipAdded { .. } => "group.membership.added",
            Self::MembershipRemoved { .. } => "group.membership.removed",
            Self::UsecaseFailed { .. } => "group.usecase.failed",
        }
    }
}

pub trait CreateGroupProductLogger {
    fn write_product(&mut self, event: CreateGroupProductEvent);
}

#[derive(Debug, Clone, Copy, PartialEq, Eq, Structural)]
pub struct CreateGroupUsecase;

impl CreateGroupUsecase {
    pub fn new() -> (result: Self)
        ensures
            result == (CreateGroupUsecase),
    {
        CreateGroupUsecase
    }
}

impl Default for CreateGroupUsecase {
    fn default() -> (result: Self)
        ensures
            result == (CreateGroupUsecase),
    {
        Self::new()
    }
}

#[derive(Debug, Clone, Copy, PartialEq, Eq, Structural)]
pub struct AddUserToGroupUsecase;

impl AddUserToGroupUsecase {
    pub fn new() -> (result: Self)
        ensures
            result == (AddUserToGroupUsecase),
    {
        AddUserToGroupUsecase
    }
}

impl Default for AddUserToGroupUsecase {
    fn default() -> (result: Self)
        ensures
            result == (AddUserToGroupUsecase),
    {
        Self::new()
    }
}

#[derive(Debug, Clone, Copy, PartialEq, Eq, Structural)]
pub struct RemoveUserFromGroupUsecase;

impl RemoveUserFromGroupUsecase {
    pub fn new() -> (result: Self)
        ensures
            result == (RemoveUserFromGroupUsecase),
    {
        RemoveUserFromGroupUsecase
    }
}

impl Default for RemoveUserFromGroupUsecase {
    fn default() -> (result: Self)
        ensures
            result == (RemoveUserFromGroupUsecase),
    {
        Self::new()
    }
}

#[derive(Debug, Clone, Copy, PartialEq, Eq, Structural)]
pub struct ListWorkspaceMembersUsecase;

impl ListWorkspaceMembersUsecase {
    pub fn new() -> (result: Self)
        ensures
            result == (ListWorkspaceMembersUsecase),
    {
        ListWorkspaceMembersUsecase
    }
}

impl Default for ListWorkspaceMembersUsecase {
    fn default() -> (result: Self)
        ensures
            result == (ListWorkspaceMembersUsecase),
    {
        Self::new()
    }
}

#[derive(Debug, Clone, PartialEq, Eq)]
pub struct ListWorkspaceGroupsInput {
    workspace_id: String,
}

impl View for ListWorkspaceGroupsInput {
    type V = Seq<char>;

    closed spec fn view(&self) -> Seq<char> {
        self.workspace_id@
    }
}

impl ListWorkspaceGroupsInput {
    pub fn new(workspace_id: &str) -> (result: Self)
        ensures
            result@ == workspace_id@,
    {
        Self {
            workspace_id: workspace_id.to_string(),
        }
    }

}

#[derive(Debug, Clone, PartialEq, Eq)]
pub struct ListWorkspaceGroupsOutput {
    groups: Vec<WorkspaceGroupDto>,
}

impl View for ListWorkspaceGroupsOutput {
    type V = Seq<<WorkspaceGroupDto as View>::V>;

    closed spec fn view(&self) -> Seq<<WorkspaceGroupDto as View>::V> {
        self.groups@.map_values(|x: WorkspaceGroupDto| x@)
    }
}

impl ListWorkspaceGroupsOutput {
    pub fn new(groups: Vec<WorkspaceGroupDto>) -> (result: Self)
        ensures
            result@ == groups@.map_values(|x: WorkspaceGroupDto| x@),
    {
        Self {
            groups: groups,
        }
    }

    pub fn groups(&self) -> (result: &[WorkspaceGroupDto])
        ensures
            result@.map_values(|x: WorkspaceGroupDto| x@) == self@,
    {
        self.groups.as_slice()
    }

}

#[derive(Debug, Clone, PartialEq, Eq)]
pub struct WorkspaceGroupDto {
    group_id: String,
    name: String,
    member_user_ids: Vec<String>,
}

impl View for WorkspaceGroupDto {
    type V = (Seq<char>, Seq<char>, Seq<Seq<char>>);

    closed spec fn view(&self) -> (Seq<char>, Seq<char>, Seq<Seq<char>>) {
        (self.group_id@, self.name@, strings_view(self.member_user_ids@))
    }
}

impl WorkspaceGroupDto {
    pub fn group_id(&self) -> (result: &str)
        ensures
            result@ == self@.0,
    {
        self.group_id.as_str()
    }

    pub fn name(&self) -> (result: &str)
        ensures
            result@ == self@.1,
    {
        self.name.as_str()
    }

    pub fn member_user_ids(&self) -> (result: &[String])
        ensures
            strings_view(result@) == self@.2,
    {
        self.member_user_ids.as_slice()
    }

}

#[derive(Debug, Clone, Copy, PartialEq, Eq, Structural)]
pub struct ListWorkspaceGroupsUsecase;

impl ListWorkspaceGroupsUsecase {
    pub fn new() -> (result: Self)
        ensures
            result == (ListWorkspaceGroupsUsecase),
    {
        ListWorkspaceGroupsUsecase
    }
}

impl Default for ListWorkspaceGroupsUsecase {
    fn default() -> (result: Self)
        ensures
            result == (ListWorkspaceGroupsUsecase),
    {
        Self::new()
    }
}

#[derive(Debug, Clone, Copy, PartialEq, Eq, Structural)]
pub enum CreateGroupError {
    InvalidInput,
    GroupAlreadyExists,
    StorageUnavailable,
}

impl CreateGroupError {
    pub fn code(self) -> (result: &'static str)
        ensures
            result@ == match self {
                Self::InvalidInput => "INVALID_GROUP_INPUT"@,
                Self::GroupAlreadyExists => "GROUP_ALREADY_EXISTS"@,
                Self::StorageUnavailable => "GROUP_STORAGE_UNAVAILABLE"@,
            },
    {
        match self {
            Self::InvalidInput => "INVALID_GROUP_INPUT",
            Self::GroupAlreadyExists => "GROUP_ALREADY_EXISTS",
            Self::StorageUnavailable => "GROUP_STORAGE_UNAVAILABLE",
        }
    }
}

#[derive(Debug, Clone, Copy, PartialEq, Eq, Structural)]
pub enum AddUserToGroupError {
    InvalidInput,
    GroupNotFound,
    UserNotFound,
    StorageUnavailable,
}

impl AddUserToGroupError {
    pub fn code(self) -> (result: &'static str)
        ensures
            result@ == match self {
                Self::InvalidInput => "INVALID_GROUP_MEMBERSHIP_INPUT"@,
                Self::GroupNotFound => "GROUP_NOT_FOUND"@,
                Self::UserNotFound => "USER_NOT_FOUND"@,
                Self::StorageUnavailable => "GROUP_STORAGE_UNAVAILABLE"@,
            },
    {
        match self {
            Self::InvalidInput => "INVALID_GROUP_MEMBERSHIP_INPUT",
            Self::GroupNotFound => "GROUP_NOT_FOUND",
            Self::UserNotFound => "USER_NOT_FOUND",
            Self::StorageUnavailable => "GROUP_STORAGE_UNAVAILABLE",
        }
    }
}

#[derive(Debug, Clone, Copy, PartialEq, Eq, Structural)]
pub enum RemoveUserFromGroupError {
    InvalidInput,
    GroupNotFound,
    UserNotFound,
    MembershipNotFound,
    StorageUnavailable,
}

impl RemoveUserFromGroupError {
    pub fn code(self) -> (result: &'static str)
        ensures
            result@ == match self {
                Self::InvalidInput => "INVALID_GROUP_MEMBERSHIP_INPUT"@,
                Self::GroupNotFound => "GROUP_NOT_FOUND"@,
                Self::UserNotFound => "USER_NOT_FOUND"@,
                Self::MembershipNotFound => "MEMBERSHIP_NOT_FOUND"@,
                Self::StorageUnavailable => "GROUP_STORAGE_UNAVAILABLE"@,
            },
    {
        match self {
            Self::InvalidInput => "INVALID_GROUP_MEMBERSHIP_INPUT",
            Self::GroupNotFound => "GROUP_NOT_FOUND",
            Self::UserNotFound => "USER_NOT_FOUND",
            Self::MembershipNotFound => "MEMBERSHIP_NOT_FOUND",
            Self::StorageUnavailable => "GROUP_STORAGE_UNAVAILABLE",
        }
    }
}

#[derive(Debug, Clone, Copy, PartialEq, Eq, Structural)]
pub enum ListWorkspaceMembersError {
    InvalidInput,
    StorageUnavailable,
}

#[derive(Debug, Clone, Copy, PartialEq, Eq, Structural)]
pub enum ListWorkspaceGroupsError {
    InvalidInput,
    StorageUnavailable,
}

impl ListWorkspaceGroupsError {
    pub fn code(self) -> (result: &'static str)
        ensures
            result@ == match self {
                Self::InvalidInput => "INVALID_GROUP_INPUT"@,
                Self::StorageUnavailable => "GROUP_STORAGE_UNAVAILABLE"@,
            },
    {
        match self {
            Self::InvalidInput => "INVALID_GROUP_INPUT",
            Self::StorageUnavailable => "GROUP_STORAGE_UNAVAILABLE",
        }
    }
}

impl RemoveUserFromGroupError {
    /// A refusal met while checking a membership request, as a removal
    /// reports it.
    pub fn from_add_error(error: AddUserToGroupError) -> (result: Self)
        ensures
            result == match error {
                AddUserToGroupError::InvalidInput => RemoveUserFromGroupError::InvalidInput,
                AddUserToGroupError::GroupNotFound => RemoveUserFromGroupError::GroupNotFound,
                AddUserToGroupError::UserNotFound => RemoveUserFromGroupError::UserNotFound,
                AddUserToGroupError::StorageUnavailable => RemoveUserFromGroupError::StorageUnavailable,
            },
    {
        match error {
            AddUserToGroupError::InvalidInput => Self::InvalidInput,
            AddUserToGroupError::GroupNotFound => Self::GroupNotFound,
            AddUserToGroupError::UserNotFound => Self::UserNotFound,
            AddUserToGroupError::StorageUnavailable => Self::StorageUnavailable,
        }
    }
}

/// A group or user identifier as product events show it.
pub open spec fn masked_member_id(id: Seq<char>) -> Seq<char> {
    "masked:"@ + id
}

pub fn mask_member_id(id: &str) -> (result: String)
    ensures
        result@ == masked_member_id(id@),
{
    "masked:".to_string().concat(id)
}

/// Whether a membership, written as (group, user), belongs to the group.
pub open spec fn in_group(group_id: Seq<char>) -> spec_fn((Seq<char>, Seq<char>)) -> bool {
    |m: (Seq<char>, Seq<char>)| m.0 == group_id
}

/// The memberships of the workspace, written as (group, user), as views.
pub open spec fn memberships_view(memberships: Seq<(String, String)>) -> Seq<(Seq<char>, Seq<char>)> {
    memberships.map_values(|m: (String, String)| (m.0@, m.1@))
}

/// The users of a group, in the order of the memberships.
pub open spec fn group_user_ids(memberships: Seq<(Seq<char>, Seq<char>)>, group_id: Seq<char>) -> Seq<Seq<char>> {
    memberships.filter(in_group(group_id)).map_values(|m: (Seq<char>, Seq<char>)| m.1)
}

proof fn lemma_filter_step(memberships: Seq<(Seq<char>, Seq<char>)>, group_id: Seq<char>, i: int)
    requires
        0 <= i < memberships.len(),
    ensures
        memberships.subrange(0, i + 1).filter(in_group(group_id)) == (if memberships[i].0 == group_id {
            memberships.subrange(0, i).filter(in_group(group_id)).push(memberships[i])
        } else {
            memberships.subrange(0, i).filter(in_group(group_id))
        }),
{
    let s = memberships.subrange(0, i + 1);
    assert(s.drop_last() =~= memberships.subrange(0, i));
    assert(s.last() == memberships[i]);
    assert(in_group(group_id)(s.last()) == (memberships[i].0 == group_id));
    reveal_with_fuel(Seq::filter, 1);
}

/// How many members a group has: the memberships that name it.
pub fn group_member_count(memberships: &[(String, String)], group_id: &str) -> (result: usize)
    ensures
        result == memberships_view(memberships@).filter(in_group(group_id@)).len(),
{
    let ghost all = memberships_view(memberships@);
    let mut count: usize = 0;
    let mut i: usize = 0;
    assert(all.subrange(0, 0).filter(in_group(group_id@)) =~= Seq::<(Seq<char>, Seq<char>)>::empty());
    while i < memberships.len()
        invariant
            i <= memberships.len(),
            all == memberships_view(memberships@),
            count == all.subrange(0, i as int).filter(in_group(group_id@)).len(),
            count <= i,
        decreases memberships.len() - i,
    {
        proof {
            lemma_filter_step(all, group_id@, i as int);
        }
        let (g, _) = &memberships[i];
        if crate::text::str_equal(g.as_str(), group_id) {
            count = count + 1;
        }
        i = i + 1;
    }
    assert(all.subrange(0, memberships.len() as int) =~= all);
    count
}

/// The users of a group, in the order of the memberships.
pub fn group_member_ids(memberships: &[(String, String)], group_id: &str) -> (result: Vec<String>)
    ensures
        strings_view(result@) == group_user_ids(memberships_view(memberships@), group_id@),
{
    let ghost all = memberships_view(memberships@);
    let mut ids: Vec<String> = Vec::new();
    let mut i: usize = 0;
    assert(all.subrange(0, 0).filter(in_group(group_id@)) =~= Seq::<(Seq<char>, Seq<char>)>::empty());
    assert(strings_view(ids@) =~= group_user_ids(all.subrange(0, 0), group_id@));
    while i < memberships.len()
        invariant
            i <= memberships.len(),
            all == memberships_view(memberships@),
            strings_view(ids@) == group_user_ids(all.subrange(0, i as int), group_id@),
        decreases memberships.len() - i,
    {
        proof {
            lemma_filter_step(all, group_id@, i as int);
        }
        let (g, u) = &memberships[i];
        if crate::text::str_equal(g.as_str(), group_id) {
            let ghost before = ids@;
            ids.push(u.clone());
            assert(strings_view(ids@) =~= strings_view(before).push(u@));
        }
        assert(strings_view(ids@) =~= group_user_ids(all.subrange(0, i + 1), group_id@));
        i = i + 1;
    }
    assert(all.subrange(0, memberships.len() as int) =~= all);
    ids
}

/// The summary of a group: its identifier, its name and its users in the
/// order of their identifiers.
pub open spec fn group_summary(group: (Seq<char>, Seq<char>), memberships: Seq<(Seq<char>, Seq<char>)>) -> (Seq<char>, Seq<char>, Seq<Seq<char>>) {
    (group.0, group.1, group_user_ids(memberships, group.0).sort_by(text_order()))
}

/// The summaries of the workspace's groups, written as (identifier, name),
/// in the order of the groups.
pub fn group_summaries(groups: &[(String, String)], memberships: &[(String, String)]) -> (result: Vec<WorkspaceGroupDto>)
    ensures
        result@.len() == groups@.len(),
        forall|i: int| 0 <= i < groups@.len() ==> #[trigger] result@[i]@ == group_summary(
            (groups@[i].0@, groups@[i].1@),
            memberships_view(memberships@),
        ),
{
    let mut result: Vec<WorkspaceGroupDto> = Vec::new();
    let mut i: usize = 0;
    while i < groups.len()
        invariant
            i <= groups.len(),
            result@.len() == i,
            forall|j: int| 0 <= j < i ==> #[trigger] result@[j]@ == group_summary(
                (groups@[j].0@, groups@[j].1@),
                memberships_view(memberships@),
            ),
        decreases groups.len() - i,
    {
        let (id, name) = &groups[i];
        let ids = group_member_ids(memberships, id.as_str());
        let sorted = sort_texts(ids);
        result.push(WorkspaceGroupDto { group_id: id.clone(), name: name.clone(), member_user_ids: sorted });
        i = i + 1;
    }
    result
}

/// The members of the workspace, one for each membership, in order.
pub fn member_dtos(memberships: &[(String, String)]) -> (result: Vec<WorkspaceMemberDto>)
    ensures
        result@.map_values(|m: WorkspaceMemberDto| m@) == memberships_view(memberships@),
{
    let mut result: Vec<WorkspaceMemberDto> = Vec::new();
    let mut i: usize = 0;
    while i < memberships.len()
        invariant
            i <= memberships.len(),
            result@.map_values(|m: WorkspaceMemberDto| m@) =~= memberships_view(memberships@.subrange(0, i as int)),
        decreases memberships.len() - i,
    {
        let (g, u) = &memberships[i];
        let ghost before = result@;
        result.push(WorkspaceMemberDto { group_id: g.clone(), user_id: u.clone() });
        assert(memberships@.subrange(0, i + 1) =~= memberships@.subrange(0, i as int).push(memberships@[i as int]));
        assert(result@.map_values(|m: WorkspaceMemberDto| m@) =~= before.map_values(|m: WorkspaceMemberDto| m@).push((g@, u@)));
        i = i + 1;
    }
    assert(memberships@.subrange(0, memberships.len() as int) =~= memberships@);
    result
}

/// What an added membership reports: a new membership is added, one that
/// was already there (or could not be found to change) leaves the user a
/// member as before.
pub fn added_membership_result(changed: bool) -> (result: GroupMembershipResult)
    ensures
        result == (if changed { GroupMembershipResult::Added } else { GroupMembershipResult::AlreadyMember }),
{
    if changed {
        GroupMembershipResult::Added
    } else {
        GroupMembershipResult::AlreadyMember
    }
}

/// What a removal reports: only a membership that was there is removed.
pub fn removed_membership_result(changed: bool) -> (result: Result<GroupMembershipResult, RemoveUserFromGroupError>)
    ensures
        changed ==> result == Ok::<GroupMembershipResult, RemoveUserFromGroupError>(GroupMembershipResult::Removed),
        !changed ==> result == Err::<GroupMembershipResult, RemoveUserFromGroupError>(RemoveUserFromGroupError::MembershipNotFound),
{
    if changed {
        Ok(GroupMembershipResult::Removed)
    } else {
        Err(RemoveUserFromGroupError::MembershipNotFound)
    }
}

impl CreateGroupProductEvent {
    /// The event for a group just created, which has no members yet.
    pub fn group_created(workspace_id: &str, group_id: &str) -> (result: Self)
        ensures
            result@ == (CreateGroupProductEventView::GroupCreated {
                workspace_id: workspace_id@,
                masked_group_id: masked_member_id(group_id@),
                member_count: 0,
            }),
    {
        CreateGroupProductEvent::GroupCreated {
            workspace_id: workspace_id.to_string(),
            masked_group_id: mask_member_id(group_id),
            member_count: 0,
        }
    }

    /// The event for a user added to a group that now has `member_count` members.
    pub fn membership_added(workspace_id: &str, group_id: &str, user_id: &str, member_count: usize) -> (result: Self)
        ensures
            result@ == (CreateGroupProductEventView::MembershipAdded {
                workspace_id: workspace_id@,
                masked_group_id: masked_member_id(group_id@),
                masked_user_id: masked_member_id(user_id@),
                member_count,
            }),
    {
        CreateGroupProductEvent::MembershipAdded {
            workspace_id: workspace_id.to_string(),
            masked_group_id: mask_member_id(group_id),
            masked_user_id: mask_member_id(user_id),
            member_count,
        }
    }

    /// The event for a user removed from a group that now has `member_count` members.
    pub fn membership_removed(workspace_id: &str, group_id: &str, user_id: &str, member_count: usize) -> (result: Self)
        ensures
            result@ == (CreateGroupProductEventView::MembershipRemoved {
                workspace_id: workspace_id@,
                masked_group_id: masked_member_id(group_id@),
                masked_user_id: masked_member_id(user_id@),
                member_count,
            }),
    {
        CreateGroupProductEvent::MembershipRemoved {
            workspace_id: workspace_id.to_string(),
            masked_group_id: mask_member_id(group_id),
            masked_user_id: mask_member_id(user_id),
            member_count,
        }
    }
}

impl CreateGroupError {
    /// How this usecase reports each group repository failure.
    pub fn from_group_repository_error(error: GroupRepositoryError) -> (result: Self)
        ensures
            result == match error {
                GroupRepositoryError::Conflict => Self::GroupAlreadyExists,
                GroupRepositoryError::NotFound | GroupRepositoryError::StorageUnavailable => Self::StorageUnavailable,
            },
    {
        match error {
            GroupRepositoryError::Conflict => Self::GroupAlreadyExists,
            GroupRepositoryError::NotFound | GroupRepositoryError::StorageUnavailable => Self::StorageUnavailable,
        }
    }
}

impl AddUserToGroupError {
    /// How this usecase reports each group repository failure.
    pub fn from_group_repository_error(error: GroupRepositoryError) -> (result: Self)
        ensures
            result == match error {
                GroupRepositoryError::NotFound => Self::GroupNotFound,
                GroupRepositoryError::Conflict | GroupRepositoryError::StorageUnavailable => Self::StorageUnavailable,
            },
    {
        match error {
            GroupRepositoryError::NotFound => Self::GroupNotFound,
            GroupRepositoryError::Conflict | GroupRepositoryError::StorageUnavailable => Self::StorageUnavailable,
        }
    }
}

impl AddUserToGroupError {
    /// How this usecase reports each user repository failure.
    pub fn from_user_repository_error(error: UserRepositoryError) -> (result: Self)
        ensures
            result == match error {
                UserRepositoryError::NotFound => Self::UserNotFound,
                UserRepositoryError::Conflict | UserRepositoryError::StorageUnavailable => Self::StorageUnavailable,
            },
    {
        match error {
            UserRepositoryError::NotFound => Self::UserNotFound,
            UserRepositoryError::Conflict | UserRepositoryError::StorageUnavailable => Self::StorageUnavailable,
        }
    }
}

impl RemoveUserFromGroupError {
    /// How this usecase reports each group repository failure.
    pub fn from_group_repository_error(error: GroupRepositoryError) -> (result: Self)
        ensures
            result == match error {
                GroupRepositoryError::NotFound => Self::MembershipNotFound,
                GroupRepositoryError::Conflict | GroupRepositoryError::StorageUnavailable => Self::StorageUnavailable,
            },
    {
        match error {
            GroupRepositoryError::NotFound => Self::MembershipNotFound,
            GroupRepositoryError::Conflict | GroupRepositoryError::StorageUnavailable => Self::StorageUnavailable,
        }
    }
}

} // verus!
