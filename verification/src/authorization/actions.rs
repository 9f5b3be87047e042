use std::marker::PhantomData;
use vstd::prelude::*;

verus! {

/// Marker: the action is not permitted at all.
pub struct NoPermission;

/// Marker: reading one's own records.
pub struct Read;

/// Marker: reading every record.
pub struct ReadAll;

/// Marker: creating one's own records.
pub struct Create;

/// Marker: updating one's own records.
pub struct Update;

/// Marker: updating every record.
pub struct UpdateAll;

/// Marker: deleting one's own records.
pub struct Delete;

/// Marker: deleting every record.
pub struct DeleteAll;

/// Whether two strings hold the same characters.
pub fn str_equals(a: &str, b: &str) -> (r: bool)
    ensures
        r == (a@ == b@),
{
    let x = a.to_owned();
    let y = b.to_owned();
    x == y
}

/// Read permission levels, from the most to the least permissive.
#[derive(Debug, Clone, Copy, PartialEq, Eq, Structural, PartialOrd, Ord, Hash)]
pub enum ReadLevel {
    ReadAll,
    Read,
    NoPermission,
}

impl ReadLevel {
    /// The position of the level, 0 being the most permissive.
    pub open spec fn spec_rank(self) -> int {
        match self {
            ReadLevel::ReadAll => 0,
            ReadLevel::Read => 1,
            ReadLevel::NoPermission => 2,
        }
    }

    /// The level at a position.
    pub open spec fn spec_from_rank(r: int) -> Self {
        if r == 0 {
            ReadLevel::ReadAll
        } else if r == 1 {
            ReadLevel::Read
        } else {
            ReadLevel::NoPermission
        }
    }

    /// The name of the level in the authorization policy.
    pub open spec fn spec_name(self) -> Seq<char> {
        match self {
            ReadLevel::ReadAll => "read_all"@,
            ReadLevel::Read => "read"@,
            ReadLevel::NoPermission => "none"@,
        }
    }

    /// The level that a policy name stands for; unknown names mean none.
    pub open spec fn spec_from_name(name: Seq<char>) -> Self {
        if name == "read"@ {
            ReadLevel::Read
        } else if name == "read_all"@ {
            ReadLevel::ReadAll
        } else {
            ReadLevel::NoPermission
        }
    }

    /// All levels, most permissive first.
    pub fn levels() -> (l: Vec<Self>)
        ensures
            l@ == seq![ReadLevel::ReadAll, ReadLevel::Read, ReadLevel::NoPermission],
    {
        vec![ReadLevel::ReadAll, ReadLevel::Read, ReadLevel::NoPermission]
    }

    pub fn rank(self) -> (r: usize)
        ensures
            r == self.spec_rank(),
    {
        match self {
            ReadLevel::ReadAll => 0,
            ReadLevel::Read => 1,
            ReadLevel::NoPermission => 2,
        }
    }

    pub fn from_rank(r: usize) -> (l: Self)
        ensures
            l == Self::spec_from_rank(r as int),
    {
        if r == 0 {
            ReadLevel::ReadAll
        } else if r == 1 {
            ReadLevel::Read
        } else {
            ReadLevel::NoPermission
        }
    }

    pub fn as_str(self) -> (s: &'static str)
        ensures
            s@ == self.spec_name(),
    {
        match self {
            ReadLevel::ReadAll => "read_all",
            ReadLevel::Read => "read",
            ReadLevel::NoPermission => "none",
        }
    }

    pub fn from_name(value: &str) -> (l: Self)
        ensures
            l == Self::spec_from_name(value@),
    {
        if str_equals(value, "read") {
            ReadLevel::Read
        } else if str_equals(value, "read_all") {
            ReadLevel::ReadAll
        } else {
            ReadLevel::NoPermission
        }
    }
}

impl Default for ReadLevel {
    fn default() -> (l: Self)
        ensures
            l == ReadLevel::NoPermission,
    {
        ReadLevel::NoPermission
    }
}

/// Create permission levels, from the most to the least permissive.
#[derive(Debug, Clone, Copy, PartialEq, Eq, Structural, PartialOrd, Ord, Hash)]
pub enum CreateLevel {
    Create,
    NoPermission,
}

impl CreateLevel {
    pub open spec fn spec_rank(self) -> int {
        match self {
            CreateLevel::Create => 0,
            CreateLevel::NoPermission => 1,
        }
    }

    pub open spec fn spec_from_rank(r: int) -> Self {
        if r == 0 {
            CreateLevel::Create
        } else {
            CreateLevel::NoPermission
        }
    }

    pub open spec fn spec_name(self) -> Seq<char> {
        match self {
            CreateLevel::Create => "create"@,
            CreateLevel::NoPermission => "none"@,
        }
    }

    pub open spec fn spec_from_name(name: Seq<char>) -> Self {
        if name == "create"@ {
            CreateLevel::Create
        } else {
            CreateLevel::NoPermission
        }
    }

    pub fn levels() -> (l: Vec<Self>)
        ensures
            l@ == seq![CreateLevel::Create, CreateLevel::NoPermission],
    {
        vec![CreateLevel::Create, CreateLevel::NoPermission]
    }

    pub fn rank(self) -> (r: usize)
        ensures
            r == self.spec_rank(),
    {
        match self {
            CreateLevel::Create => 0,
            CreateLevel::NoPermission => 1,
        }
    }

    pub fn from_rank(r: usize) -> (l: Self)
        ensures
            l == Self::spec_from_rank(r as int),
    {
        if r == 0 {
            CreateLevel::Create
        } else {
            CreateLevel::NoPermission
        }
    }

    pub fn as_str(self) -> (s: &'static str)
        ensures
            s@ == self.spec_name(),
    {
        match self {
            CreateLevel::Create => "create",
            CreateLevel::NoPermission => "none",
        }
    }

    pub fn from_name(value: &str) -> (l: Self)
        ensures
            l == Self::spec_from_name(value@),
    {
        if str_equals(value, "create") {
            CreateLevel::Create
        } else {
            CreateLevel::NoPermission
        }
    }
}

impl Default for CreateLevel {
    fn default() -> (l: Self)
        ensures
            l == CreateLevel::NoPermission,
    {
        CreateLevel::NoPermission
    }
}

/// Update permission levels, from the most to the least permissive.
#[derive(Debug, Clone, Copy, PartialEq, Eq, Structural, PartialOrd, Ord, Hash)]
pub enum UpdateLevel {
    UpdateAll,
    Update,
    NoPermission,
}

impl UpdateLevel {
    pub open spec fn spec_rank(self) -> int {
        match self {
            UpdateLevel::UpdateAll => 0,
            UpdateLevel::Update => 1,
            UpdateLevel::NoPermission => 2,
        }
    }

    pub open spec fn spec_from_rank(r: int) -> Self {
        if r == 0 {
            UpdateLevel::UpdateAll
        } else if r == 1 {
            UpdateLevel::Update
        } else {
            UpdateLevel::NoPermission
        }
    }

    pub open spec fn spec_name(self) -> Seq<char> {
        match self {
            UpdateLevel::UpdateAll => "update_all"@,
            UpdateLevel::Update => "update"@,
            UpdateLevel::NoPermission => "none"@,
        }
    }

    pub open spec fn spec_from_name(name: Seq<char>) -> Self {
        if name == "update"@ {
            UpdateLevel::Update
        } else if name == "update_all"@ {
            UpdateLevel::UpdateAll
        } else {
            UpdateLevel::NoPermission
        }
    }

    pub fn levels() -> (l: Vec<Self>)
        ensures
            l@ == seq![UpdateLevel::UpdateAll, UpdateLevel::Update, UpdateLevel::NoPermission],
    {
        vec![UpdateLevel::UpdateAll, UpdateLevel::Update, UpdateLevel::NoPermission]
    }

    pub fn rank(self) -> (r: usize)
        ensures
            r == self.spec_rank(),
    {
        match self {
            UpdateLevel::UpdateAll => 0,
            UpdateLevel::Update => 1,
            UpdateLevel::NoPermission => 2,
        }
    }

    pub fn from_rank(r: usize) -> (l: Self)
        ensures
            l == Self::spec_from_rank(r as int),
    {
        if r == 0 {
            UpdateLevel::UpdateAll
        } else if r == 1 {
            UpdateLevel::Update
        } else {
            UpdateLevel::NoPermission
        }
    }

    pub fn as_str(self) -> (s: &'static str)
        ensures
            s@ == self.spec_name(),
    {
        match self {
            UpdateLevel::UpdateAll => "update_all",
            UpdateLevel::Update => "update",
            UpdateLevel::NoPermission => "none",
        }
    }

    pub fn from_name(value: &str) -> (l: Self)
        ensures
            l == Self::spec_from_name(value@),
    {
        if str_equals(value, "update") {
            UpdateLevel::Update
        } else if str_equals(value, "update_all") {
            UpdateLevel::UpdateAll
        } else {
            UpdateLevel::NoPermission
        }
    }
}

impl Default for UpdateLevel {
    fn default() -> (l: Self)
        ensures
            l == UpdateLevel::NoPermission,
    {
        UpdateLevel::NoPermission
    }
}

/// Delete permission levels, from the most to the least permissive.
#[derive(Debug, Clone, Copy, PartialEq, Eq, Structural, PartialOrd, Ord, Hash)]
pub enum DeleteLevel {
    DeleteAll,
    Delete,
    NoPermission,
}

impl DeleteLevel {
    pub open spec fn spec_rank(self) -> int {
        match self {
            DeleteLevel::DeleteAll => 0,
            DeleteLevel::Delete => 1,
            DeleteLevel::NoPermission => 2,
        }
    }

    pub open spec fn spec_from_rank(r: int) -> Self {
        if r == 0 {
            DeleteLevel::DeleteAll
        } else if r == 1 {
            DeleteLevel::Delete
        } else {
            DeleteLevel::NoPermission
        }
    }

    pub open spec fn spec_name(self) -> Seq<char> {
        match self {
            DeleteLevel::DeleteAll => "delete_all"@,
            DeleteLevel::Delete => "delete"@,
            DeleteLevel::NoPermission => "none"@,
        }
    }

    pub open spec fn spec_from_name(name: Seq<char>) -> Self {
        if name == "delete"@ {
            DeleteLevel::Delete
        } else if name == "delete_all"@ {
            DeleteLevel::DeleteAll
        } else {
            DeleteLevel::NoPermission
        }
    }

    pub fn levels() -> (l: Vec<Self>)
        ensures
            l@ == seq![DeleteLevel::DeleteAll, DeleteLevel::Delete, DeleteLevel::NoPermission],
    {
        vec![DeleteLevel::DeleteAll, DeleteLevel::Delete, DeleteLevel::NoPermission]
    }

    pub fn rank(self) -> (r: usize)
        ensures
            r == self.spec_rank(),
    {
        match self {
            DeleteLevel::DeleteAll => 0,
            DeleteLevel::Delete => 1,
            DeleteLevel::NoPermission => 2,
        }
    }

    pub fn from_rank(r: usize) -> (l: Self)
        ensures
            l == Self::spec_from_rank(r as int),
    {
        if r == 0 {
            DeleteLevel::DeleteAll
        } else if r == 1 {
            DeleteLevel::Delete
        } else {
            DeleteLevel::NoPermission
        }
    }

    pub fn as_str(self) -> (s: &'static str)
        ensures
            s@ == self.spec_name(),
    {
        match self {
            DeleteLevel::DeleteAll => "delete_all",
            DeleteLevel::Delete => "delete",
            DeleteLevel::NoPermission => "none",
        }
    }

    pub fn from_name(value: &str) -> (l: Self)
        ensures
            l == Self::spec_from_name(value@),
    {
        if str_equals(value, "delete") {
            DeleteLevel::Delete
        } else if str_equals(value, "delete_all") {
            DeleteLevel::DeleteAll
        } else {
            DeleteLevel::NoPermission
        }
    }
}

impl Default for DeleteLevel {
    fn default() -> (l: Self)
        ensures
            l == DeleteLevel::NoPermission,
    {
        DeleteLevel::NoPermission
    }
}

/// A combination of action markers, one per kind of action.
pub struct ActionSet<Read = NoPermission, Create = NoPermission, Update = NoPermission, Delete = NoPermission> {
    read: PhantomData<Read>,
    create: PhantomData<Create>,
    update: PhantomData<Update>,
    delete: PhantomData<Delete>,
}

/// Every level is read back from its policy name.
pub proof fn lemma_level_names_round_trip(r: ReadLevel, c: CreateLevel, u: UpdateLevel, d: DeleteLevel)
    ensures
        ReadLevel::spec_from_name(r.spec_name()) == r,
        CreateLevel::spec_from_name(c.spec_name()) == c,
        UpdateLevel::spec_from_name(u.spec_name()) == u,
        DeleteLevel::spec_from_name(d.spec_name()) == d,
{
    reveal_strlit("read_all");
    reveal_strlit("read");
    reveal_strlit("none");
    reveal_strlit("create");
    reveal_strlit("update_all");
    reveal_strlit("update");
    reveal_strlit("delete_all");
    reveal_strlit("delete");
    assert("read"@.len() != "read_all"@.len());
    assert("none"@[0] != "read"@[0] && "none"@.len() != "read_all"@.len());
    assert("none"@[0] != "create"@[0]);
    assert("update"@.len() != "update_all"@.len());
    assert("none"@[0] != "update"@[0] && "none"@.len() != "update_all"@.len());
    assert("delete"@.len() != "delete_all"@.len());
    assert("none"@[0] != "delete"@[0] && "none"@.len() != "delete_all"@.len());
}

/// Every level is found again at its rank, and the ranks of `levels()` are
/// their positions.
pub proof fn lemma_level_ranks_round_trip(r: ReadLevel, c: CreateLevel, u: UpdateLevel, d: DeleteLevel)
    ensures
        ReadLevel::spec_from_rank(r.spec_rank()) == r,
        CreateLevel::spec_from_rank(c.spec_rank()) == c,
        UpdateLevel::spec_from_rank(u.spec_rank()) == u,
        DeleteLevel::spec_from_rank(d.spec_rank()) == d,
        0 <= r.spec_rank() < 3,
        0 <= c.spec_rank() < 2,
        0 <= u.spec_rank() < 3,
        0 <= d.spec_rank() < 3,
{
}

} // verus!
