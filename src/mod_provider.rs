use vstd::prelude::*;

pub mod modrinth;

verus! {

/// A source of mods.
#[derive(Debug, Clone, Copy, PartialEq, Eq, Structural)]
pub enum ModProvider {
    Hangar,
    Modrinth,
}

impl ModProvider {
    pub open spec fn spec_name(self) -> Seq<char> {
        match self {
            ModProvider::Hangar => "hangar"@,
            ModProvider::Modrinth => "modrinth"@,
        }
    }

    /// The lowercase name of the provider.
    pub fn name(&self) -> (r: &'static str)
        ensures
            r@ == self.spec_name(),
    {
        match self {
            ModProvider::Hangar => "hangar",
            ModProvider::Modrinth => "modrinth",
        }
    }
}

} // verus!
