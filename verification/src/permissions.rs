use vstd::prelude::*;

verus! {

/// The permission lattice. `Admin` is the most powerful level and `NoAccess`
/// the least; every gated operation compares a caller's effective level
/// against a required one.
#[derive(Clone, Copy, Debug, PartialEq, Eq, Structural)]
pub enum Permissions {
    Admin,
    Owner,
    Editor,
    Reader,
    NoAccess,
}

/// The level a numeric permission code denotes: 0 is `Admin`, 1 `Owner`,
/// 2 `Editor`, 3 `Reader`, and everything else `NoAccess`.
pub open spec fn spec_from_i32(i: i32) -> Permissions {
    if i == 0 {
        Permissions::Admin
    } else if i == 1 {
        Permissions::Owner
    } else if i == 2 {
        Permissions::Editor
    } else if i == 3 {
        Permissions::Reader
    } else {
        Permissions::NoAccess
    }
}

impl Permissions {
    /// Position of a level in the lattice; a lower rank is more power.
    pub open spec fn rank(self) -> int {
        match self {
            Permissions::Admin => 0,
            Permissions::Owner => 1,
            Permissions::Editor => 2,
            Permissions::Reader => 3,
            Permissions::NoAccess => 4,
        }
    }

    /// Whether this effective level grants an operation that requires
    /// `required`: it does exactly when it is at least as powerful.
    pub open spec fn spec_satisfies(self, required: Permissions) -> bool {
        self.rank() <= required.rank()
    }

    pub fn from_i32(i: i32) -> (r: Self)
        ensures
            r == spec_from_i32(i),
    {
        match i {
            0 => Self::Admin,
            1 => Self::Owner,
            2 => Self::Editor,
            3 => Self::Reader,
            _ => Self::NoAccess,
        }
    }

    /// The numeric rank of this level.
    pub fn level(&self) -> (r: i32)
        ensures
            r as int == self.rank(),
    {
        match self {
            Permissions::Admin => 0,
            Permissions::Owner => 1,
            Permissions::Editor => 2,
            Permissions::Reader => 3,
            Permissions::NoAccess => 4,
        }
    }

    /// Whether this effective level is at least as powerful as `required`.
    pub fn satisfies(&self, required: &Permissions) -> (r: bool)
        ensures
            r == self.spec_satisfies(*required),
    {
        self.level() <= required.level()
    }
}

impl Default for Permissions {
    /// Absent any grant or intrinsic rule, a caller has no permission.
    fn default() -> (r: Self)
        ensures
            r == Permissions::NoAccess,
    {
        Permissions::NoAccess
    }
}

} // verus!
