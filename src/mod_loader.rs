use vstd::prelude::*;
use crate::mod_provider::ModProvider;
use crate::mojang::{ManifestVersion, Version};

pub mod fabric;
pub mod paper;
pub mod vanilla;

verus! {

/// The server runtime that an instance is built around.
#[derive(Debug, Clone, Copy, PartialEq, Eq, Structural)]
pub enum ModLoader {
    Vanilla,
    Fabric,
    Paper,
}

/// Paper's cutover release times, in nanoseconds since the epoch.
pub const TIME_1_12: i128 = 1496411427_000_000_000;
pub const TIME_1_16_5: i128 = 1610640332_000_000_000;
pub const TIME_1_17: i128 = 1623150040_000_000_000;

/// The Java major version that a loader needs for a game version, given the
/// release time of the game version and what its metadata asks for.
pub open spec fn minimum_java_spec(loader: ModLoader, release_nanos: int, game_major: u32) -> u32 {
    match loader {
        ModLoader::Vanilla => game_major,
        ModLoader::Fabric => if game_major > 8 { game_major } else { 8 },
        ModLoader::Paper => if release_nanos < TIME_1_12 {
            8
        } else if release_nanos < TIME_1_16_5 {
            11
        } else if release_nanos < TIME_1_17 {
            16
        } else if game_major > 21 {
            game_major
        } else {
            21
        },
    }
}

impl ModLoader {
    pub open spec fn spec_name(self) -> Seq<char> {
        match self {
            ModLoader::Vanilla => "vanilla"@,
            ModLoader::Fabric => "fabric"@,
            ModLoader::Paper => "paper"@,
        }
    }

    /// The lowercase name of the loader.
    pub fn name(&self) -> (r: &'static str)
        ensures
            r@ == self.spec_name(),
    {
        match self {
            ModLoader::Vanilla => "vanilla",
            ModLoader::Fabric => "fabric",
            ModLoader::Paper => "paper",
        }
    }

    /// Where mods come from when none is named.
    pub fn default_mod_provider(&self) -> (r: Option<ModProvider>)
        ensures
            r == (match *self {
                ModLoader::Vanilla => None,
                ModLoader::Fabric => Some(ModProvider::Modrinth),
                ModLoader::Paper => Some(ModProvider::Hangar),
            }),
    {
        match self {
            ModLoader::Vanilla => None,
            ModLoader::Fabric => Some(ModProvider::Modrinth),
            ModLoader::Paper => Some(ModProvider::Hangar),
        }
    }

    /// The directory of an instance that holds its mods, if the loader takes any.
    pub fn mods_folder(&self) -> (r: Option<&'static str>)
        ensures
            match *self {
                ModLoader::Vanilla => r is None,
                ModLoader::Fabric => r matches Some(f) && f@ == "mods"@,
                ModLoader::Paper => r matches Some(f) && f@ == "plugins"@,
            },
    {
        match self {
            ModLoader::Vanilla => None,
            ModLoader::Fabric => Some("mods"),
            ModLoader::Paper => Some("plugins"),
        }
    }

    /// The Java major version that this loader needs for a game version.
    pub fn minimum_java_version(&self, manifest_version: &ManifestVersion, full_version: &Version) -> (r: u32)
        ensures
            r == minimum_java_spec(*self, manifest_version.release_time.unix_nanos as int, full_version.java_version.major_version),
    {
        let major = full_version.java_version.major_version;
        match self {
            ModLoader::Vanilla => major,
            ModLoader::Fabric => if major > 8 { major } else { 8 },
            ModLoader::Paper => {
                let t = manifest_version.release_time.unix_nanos;
                if t < TIME_1_12 {
                    8
                } else if t < TIME_1_16_5 {
                    11
                } else if t < TIME_1_17 {
                    16
                } else if major > 21 {
                    major
                } else {
                    21
                }
            },
        }
    }
}

/// The Java that an install needs: the loader's minimum when that is above
/// what the game version asks for, else the game version's.
pub fn required_java_version(loader_minimum: u32, game_major: u32) -> (r: u32)
    ensures
        r == (if loader_minimum > game_major { loader_minimum } else { game_major }),
        r >= loader_minimum && r >= game_major,
{
    if loader_minimum > game_major {
        loader_minimum
    } else {
        game_major
    }
}

} // verus!
