use vstd::prelude::*;
use crate::hashing::HashWithAlgorithm;
use crate::mod_loader::ModLoader;
use crate::mod_provider::ModProvider;

verus! {

/// A mod installed into an instance.
#[derive(Debug, Clone)]
pub struct ModMetadata {
    pub id: String,
    pub name: String,
    pub file_name: String,
    pub hash: HashWithAlgorithm,
    pub provider: ModProvider,
}

/// What an instance directory records about itself.
#[derive(Debug, Clone)]
pub struct InstanceMetadata {
    pub loader: ModLoader,
    pub minecraft_version: String,
    pub mods: Vec<ModMetadata>,
}

/// No two mods share an id.
pub open spec fn ids_unique(mods: Seq<ModMetadata>) -> bool {
    forall|i: int, j: int| 0 <= i < j < mods.len() ==> (#[trigger] mods[i]).id@ != (#[trigger] mods[j]).id@
}

impl InstanceMetadata {
    /// Mods are unique by id and each recorded digest has its algorithm's size.
    pub open spec fn wf(&self) -> bool {
        &&& ids_unique(self.mods@)
        &&& forall|i: int| 0 <= i < self.mods@.len() ==> (#[trigger] self.mods@[i]).hash.wf()
    }

    /// The metadata of a fresh instance, with no mods.
    pub fn new(loader: ModLoader, minecraft_version: String) -> (r: InstanceMetadata)
        ensures
            r.loader == loader,
            r.minecraft_version@ == minecraft_version@,
            r.mods@.len() == 0,
            r.wf(),
    {
        InstanceMetadata { loader, minecraft_version, mods: Vec::new() }
    }
}

impl InstanceMetadata {
    /// Checks the well-formedness that loaded metadata must have before it
    /// is changed.
    pub fn is_well_formed(&self) -> (r: bool)
        ensures
            r == self.wf(),
    {
        let n = self.mods.len();
        let mut i: usize = 0;
        while i < n
            invariant
                n == self.mods@.len(),
                i <= n,
                forall|a: int, b: int| 0 <= a < b < i ==> (#[trigger] self.mods@[a]).id@ != (#[trigger] self.mods@[b]).id@,
                forall|a: int| 0 <= a < i ==> (#[trigger] self.mods@[a]).hash.wf(),
            decreases n - i,
        {
            if self.mods[i].hash.hash.len() != self.mods[i].hash.algorithm.hash_size() {
                return false;
            }
            let mut j: usize = 0;
            while j < i
                invariant
                    n == self.mods@.len(),
                    j <= i < n,
                    forall|a: int| 0 <= a < j ==> (#[trigger] self.mods@[a]).id@ != self.mods@[i as int].id@,
                decreases i - j,
            {
                if self.mods[j].id == self.mods[i].id {
                    assert(!ids_unique(self.mods@));
                    return false;
                }
                j = j + 1;
            }
            i = i + 1;
        }
        true
    }
}

/// The name of the metadata file inside an instance directory.
pub fn instance_metadata_file_name() -> (r: &'static str)
    ensures
        r@ == ".mcserver_metadata.json"@,
{
    ".mcserver_metadata.json"
}

} // verus!
