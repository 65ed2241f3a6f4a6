//! The content sources a link can point to.

use vstd::prelude::*;
use crate::error::CoreError;
use crate::text::same_text;

verus! {

/// A content source that is polled for a linked identity's activity.
#[derive(Debug, Clone, Copy, PartialEq, Eq, Hash, Structural)]
pub enum Adapter {
    /// The forum at linux.org.ru.
    LinuxOrgRu,
}

/// The source that users call by `name` in a command; names are matched
/// letter for letter.
pub open spec fn adapter_named(name: Seq<char>) -> Option<Adapter> {
    if name == "LinuxOrgRu"@ {
        Some(Adapter::LinuxOrgRu)
    } else {
        None
    }
}

impl Adapter {
    /// The name under which users write this source in a command.
    pub open spec fn name(self) -> Seq<char> {
        match self {
            Adapter::LinuxOrgRu => "LinuxOrgRu"@,
        }
    }

    /// The source of the given name, or an error for a name that no source
    /// has.
    pub fn from_str(s: &str) -> (parsed: Result<Adapter, CoreError>)
        ensures
            match parsed {
                Ok(adapter) => adapter_named(s@) == Some(adapter),
                Err(error) => adapter_named(s@) is None && error is CustomError
                    && error.message() == "No such adapter!"@,
            },
    {
        if same_text(s, "LinuxOrgRu") {
            Ok(Adapter::LinuxOrgRu)
        } else {
            Err(CoreError::CustomError("No such adapter!".to_owned()))
        }
    }

    /// The source's name as text.
    pub fn to_string(&self) -> (text: String)
        ensures
            text@ == self.name(),
    {
        match *self {
            Adapter::LinuxOrgRu => "LinuxOrgRu".to_owned(),
        }
    }
}

/// Every source is found again under its own name.
pub proof fn lemma_name_round_trip(adapter: Adapter)
    ensures
        adapter_named(adapter.name()) == Some(adapter),
{
}

} // verus!
