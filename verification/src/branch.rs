//! Deployment branches of the application.

use vstd::prelude::*;

use crate::text::str_eq;

verus! {

/// A deployment branch.
#[derive(Debug, Clone, Copy, PartialEq, Eq, Hash, Structural)]
pub enum Branch {
    Stable,
    Ptb,
    Canary,
    Development,
}

impl Branch {
    /// The title-cased name shown to people.
    pub open spec fn display(self) -> Seq<char> {
        match self {
            Branch::Stable => "Stable"@,
            Branch::Ptb => "PTB"@,
            Branch::Canary => "Canary"@,
            Branch::Development => "Development"@,
        }
    }

    /// The name of the variant, as debug output writes it.
    pub open spec fn variant(self) -> Seq<char> {
        match self {
            Branch::Stable => "Stable"@,
            Branch::Ptb => "Ptb"@,
            Branch::Canary => "Canary"@,
            Branch::Development => "Development"@,
        }
    }

    /// The lowercase name used in configuration, in dump prefixes and in the
    /// catalog.
    pub open spec fn name(self) -> Seq<char> {
        match self {
            Branch::Stable => "stable"@,
            Branch::Ptb => "ptb"@,
            Branch::Canary => "canary"@,
            Branch::Development => "development"@,
        }
    }

    /// The origin that serves the branch; `Development` has none.
    pub open spec fn origin(self) -> Seq<char>
        recommends
            !(self is Development),
    {
        match self {
            Branch::Stable => "https://discord.com"@,
            Branch::Ptb => "https://ptb.discord.com"@,
            _ => "https://canary.discord.com"@,
        }
    }

    /// The branch that `s` names in lowercase, if any.
    pub open spec fn named(s: Seq<char>) -> Option<Branch> {
        if s == Branch::Stable.name() {
            Some(Branch::Stable)
        } else if s == Branch::Ptb.name() {
            Some(Branch::Ptb)
        } else if s == Branch::Canary.name() {
            Some(Branch::Canary)
        } else if s == Branch::Development.name() {
            Some(Branch::Development)
        } else {
            None
        }
    }

    /// The display name: `Stable`, `PTB`, `Canary` or `Development`.
    pub fn to_string(&self) -> (r: String)
        ensures
            r@ == self.display(),
    {
        match self {
            Branch::Stable => "Stable".to_owned(),
            Branch::Ptb => "PTB".to_owned(),
            Branch::Canary => "Canary".to_owned(),
            Branch::Development => "Development".to_owned(),
        }
    }

    /// The name of the variant: `Stable`, `Ptb`, `Canary` or `Development`.
    pub fn variant_name(&self) -> (r: &'static str)
        ensures
            r@ == self.variant(),
    {
        match self {
            Branch::Stable => "Stable",
            Branch::Ptb => "Ptb",
            Branch::Canary => "Canary",
            Branch::Development => "Development",
        }
    }

    /// The lowercase name: `stable`, `ptb`, `canary` or `development`.
    pub fn as_str(&self) -> (r: &'static str)
        ensures
            r@ == self.name(),
    {
        match self {
            Branch::Stable => "stable",
            Branch::Ptb => "ptb",
            Branch::Canary => "canary",
            Branch::Development => "development",
        }
    }

    /// Reads a branch from its lowercase name; any other text is refused.
    pub fn from_str(s: &str) -> (r: Result<Branch, ()>)
        ensures
            match Branch::named(s@) {
                Some(b) => r == Ok::<Branch, ()>(b),
                None => r is Err,
            },
    {
        if str_eq(s, "stable") {
            Ok(Branch::Stable)
        } else if str_eq(s, "ptb") {
            Ok(Branch::Ptb)
        } else if str_eq(s, "canary") {
            Ok(Branch::Canary)
        } else if str_eq(s, "development") {
            Ok(Branch::Development)
        } else {
            Err(())
        }
    }

    /// The base URL of the branch. `Development` is served nowhere, so it is
    /// left out.
    pub fn base(&self) -> (r: String)
        requires
            !(*self is Development),
        ensures
            r@ == self.origin(),
    {
        match self {
            Branch::Stable => "https://discord.com".to_owned(),
            Branch::Ptb => "https://ptb.discord.com".to_owned(),
            _ => "https://canary.discord.com".to_owned(),
        }
    }

    /// Whether the branch serves a frontend that can be fetched.
    pub fn has_frontend(&self) -> (r: bool)
        ensures
            r == !(*self is Development),
    {
        !matches!(self, Branch::Development)
    }

    /// The color that stands for the branch in notifications.
    pub fn color(&self) -> (r: u32)
        ensures
            r == match *self {
                Branch::Stable => 0x7289da_u32,
                Branch::Ptb => 0x99aab5_u32,
                Branch::Canary => 0xf1c40f_u32,
                Branch::Development => 0x4d4d4d_u32,
            },
    {
        match self {
            Branch::Stable => 0x7289da,
            Branch::Ptb => 0x99aab5,
            Branch::Canary => 0xf1c40f,
            Branch::Development => 0x4d4d4d,
        }
    }
}

/// Every branch is found again from its lowercase name.
pub proof fn name_roundtrip(b: Branch)
    ensures
        Branch::named(b.name()) == Some(b),
{
    reveal_strlit("stable");
    reveal_strlit("ptb");
    reveal_strlit("canary");
    reveal_strlit("development");
    assert("stable"@.len() == 6);
    assert("ptb"@.len() == 3);
    assert("canary"@[0] == 'c');
    assert("stable"@[0] == 's');
}

} // verus!
