//! The game releases and the activities a user can pick.

use vstd::prelude::*;

verus! {

/// A release of the game; each has its own save layout.
#[derive(Clone, Copy, Debug, PartialEq, Eq, Structural)]
pub enum IsaacVersion {
    Rebirth,
    Afterbirth,
    AfterbirthPlus,
    AfterbirthPlusBP5,
    Repentance,
}

/// What the user asks to be done.
#[derive(Clone, Copy, Debug, PartialEq, Eq, Structural)]
pub enum Activity {
    Install,
    Backup,
    Delete,
    ChangeSteamCloud,
}

impl IsaacVersion {
    /// The release at a position of the declaration, counted from zero.
    pub open spec fn spec_from_repr(discriminant: usize) -> Option<IsaacVersion> {
        if discriminant == 0 {
            Some(IsaacVersion::Rebirth)
        } else if discriminant == 1 {
            Some(IsaacVersion::Afterbirth)
        } else if discriminant == 2 {
            Some(IsaacVersion::AfterbirthPlus)
        } else if discriminant == 3 {
            Some(IsaacVersion::AfterbirthPlusBP5)
        } else if discriminant == 4 {
            Some(IsaacVersion::Repentance)
        } else {
            None
        }
    }

    /// The position of a release in the declaration, counted from zero.
    pub open spec fn spec_repr(self) -> usize {
        match self {
            IsaacVersion::Rebirth => 0,
            IsaacVersion::Afterbirth => 1,
            IsaacVersion::AfterbirthPlus => 2,
            IsaacVersion::AfterbirthPlusBP5 => 3,
            IsaacVersion::Repentance => 4,
        }
    }

    /// Maps a position to the release declared there, `None` past the last.
    pub fn from_repr(discriminant: usize) -> (res: Option<IsaacVersion>)
        ensures
            res == Self::spec_from_repr(discriminant),
            res is Some <==> discriminant < 5,
            res matches Some(v) ==> v.spec_repr() == discriminant,
    {
        match discriminant {
            0 => Some(IsaacVersion::Rebirth),
            1 => Some(IsaacVersion::Afterbirth),
            2 => Some(IsaacVersion::AfterbirthPlus),
            3 => Some(IsaacVersion::AfterbirthPlusBP5),
            4 => Some(IsaacVersion::Repentance),
            _ => None,
        }
    }
}

impl Activity {
    /// The activity at a position of the declaration, counted from zero.
    pub open spec fn spec_from_repr(discriminant: usize) -> Option<Activity> {
        if discriminant == 0 {
            Some(Activity::Install)
        } else if discriminant == 1 {
            Some(Activity::Backup)
        } else if discriminant == 2 {
            Some(Activity::Delete)
        } else if discriminant == 3 {
            Some(Activity::ChangeSteamCloud)
        } else {
            None
        }
    }

    /// The position of an activity in the declaration, counted from zero.
    pub open spec fn spec_repr(self) -> usize {
        match self {
            Activity::Install => 0,
            Activity::Backup => 1,
            Activity::Delete => 2,
            Activity::ChangeSteamCloud => 3,
        }
    }

    /// Maps a position to the activity declared there, `None` past the last.
    pub fn from_repr(discriminant: usize) -> (res: Option<Activity>)
        ensures
            res == Self::spec_from_repr(discriminant),
            res is Some <==> discriminant < 4,
            res matches Some(a) ==> a.spec_repr() == discriminant,
    {
        match discriminant {
            0 => Some(Activity::Install),
            1 => Some(Activity::Backup),
            2 => Some(Activity::Delete),
            3 => Some(Activity::ChangeSteamCloud),
            _ => None,
        }
    }

    /// Whether the activity acts on one of the save slots.
    pub open spec fn spec_needs_slot(self) -> bool {
        self != Activity::ChangeSteamCloud
    }

    /// Whether the activity acts on one of the save slots; changing the
    /// Steam Cloud setting acts on the options file alone.
    pub fn needs_slot(self) -> (res: bool)
        ensures
            res == self.spec_needs_slot(),
    {
        match self {
            Activity::ChangeSteamCloud => false,
            _ => true,
        }
    }
}

} // verus!
