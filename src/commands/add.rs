use vstd::prelude::*;
use crate::instance::{ids_unique, InstanceMetadata, ModMetadata};
use crate::mod_loader::ModLoader;
use crate::mod_provider::ModProvider;

verus! {

/// The mods without the one whose id is `id`, in their order.
pub open spec fn without_id(mods: Seq<ModMetadata>, id: Seq<char>) -> Seq<ModMetadata>
    decreases mods.len(),
{
    if mods.len() == 0 {
        mods
    } else {
        let rest = without_id(mods.drop_last(), id);
        if mods.last().id@ == id {
            rest
        } else {
            rest.push(mods.last())
        }
    }
}

proof fn lemma_without_id(mods: Seq<ModMetadata>, id: Seq<char>)
    ensures
        forall|i: int| 0 <= i < without_id(mods, id).len() ==> (#[trigger] without_id(mods, id)[i]).id@ != id
            && mods.contains(without_id(mods, id)[i]),
        ids_unique(mods) ==> ids_unique(without_id(mods, id)),
    decreases mods.len(),
{
    if mods.len() > 0 {
        lemma_without_id(mods.drop_last(), id);
        let r = without_id(mods, id);
        let p = without_id(mods.drop_last(), id);
        assert forall|i: int| 0 <= i < r.len() implies (#[trigger] r[i]).id@ != id && mods.contains(r[i]) by {
            if i < p.len() {
                assert(r[i] == p[i]);
                let k = choose|k: int| 0 <= k < mods.drop_last().len() && mods.drop_last()[k] == p[i];
                assert(mods[k] == p[i]);
            } else {
                assert(r[i] == mods.last());
                assert(mods[mods.len() - 1] == mods.last());
            }
        }
        if ids_unique(mods) {
            assert(ids_unique(mods.drop_last())) by {
                assert forall|i: int, j: int| 0 <= i < j < mods.drop_last().len() implies (#[trigger] mods.drop_last()[i]).id@
                    != (#[trigger] mods.drop_last()[j]).id@ by {
                    assert(mods[i] == mods.drop_last()[i] && mods[j] == mods.drop_last()[j]);
                }
            }
            assert forall|i: int, j: int| 0 <= i < j < r.len() implies (#[trigger] r[i]).id@ != (#[trigger] r[j]).id@ by {
                if j >= p.len() {
                    assert(r[j] == mods.last());
                    assert(r[i] == p[i]);
                    let k = choose|k: int| 0 <= k < mods.drop_last().len() && mods.drop_last()[k] == p[i];
                    assert(mods[k] == p[i]);
                    assert(mods[mods.len() - 1] == mods.last());
                } else {
                    assert(r[i] == p[i] && r[j] == p[j]);
                }
            }
        }
    }
}

/// Records an installed mod: any earlier entry with its id is replaced and
/// the new entry goes last.
pub fn add_mod(metadata: &mut InstanceMetadata, added: ModMetadata)
    requires
        old(metadata).wf(),
        added.hash.wf(),
    ensures
        final(metadata).mods@ == without_id(old(metadata).mods@, added.id@).push(added),
        final(metadata).loader == old(metadata).loader,
        final(metadata).minecraft_version == old(metadata).minecraft_version,
        final(metadata).wf(),
{
    let ghost old_mods = metadata.mods@;
    let mut rest: Vec<ModMetadata> = Vec::new();
    core::mem::swap(&mut metadata.mods, &mut rest);
    let n = rest.len();
    let mut kept: Vec<ModMetadata> = Vec::new();
    let mut i: usize = 0;
    while rest.len() > 0
        invariant
            n == old_mods.len(),
            i <= n,
            rest@ == old_mods.subrange(i as int, n as int),
            kept@ == without_id(old_mods.subrange(0, i as int), added.id@),
            metadata.loader == old(metadata).loader,
            metadata.minecraft_version == old(metadata).minecraft_version,
        decreases rest@.len(),
    {
        assert(i < n);
        let m = rest.remove(0);
        proof {
            assert(rest@ =~= old_mods.subrange(i + 1, n as int));
            assert(old_mods.subrange(0, i + 1).drop_last() =~= old_mods.subrange(0, i as int));
            assert(old_mods.subrange(0, i + 1).last() == m);
        }
        if m.id != added.id {
            kept.push(m);
        }
        i = i + 1;
    }
    proof {
        assert(old_mods.subrange(0, n as int) =~= old_mods);
        lemma_without_id(old_mods, added.id@);
    }
    let ghost k = kept@;
    kept.push(added);
    proof {
        assert forall|a: int, b: int| 0 <= a < b < kept@.len() implies (#[trigger] kept@[a]).id@
            != (#[trigger] kept@[b]).id@ by {
            if b == k.len() {
                assert(k[a].id@ != added.id@);
            } else {
                assert(kept@[a] == k[a] && kept@[b] == k[b]);
            }
        }
        assert forall|a: int| 0 <= a < kept@.len() implies (#[trigger] kept@[a]).hash.wf() by {
            if a < k.len() {
                assert(old_mods.contains(k[a]));
            }
        }
    }
    metadata.mods = kept;
}

/// Choosing where mods come from failed.
#[derive(Debug, Clone, Copy, PartialEq, Eq, Structural)]
pub enum ProviderError {
    /// The loader takes no mods and none was named.
    NoModsOnLoader(ModLoader),
}

/// The provider to use: the one named, else the loader's default.
pub fn choose_provider(requested: Option<ModProvider>, loader: ModLoader) -> (r: Result<ModProvider, ProviderError>)
    ensures
        requested matches Some(p) ==> r == Ok::<ModProvider, ProviderError>(p),
        requested is None && loader == ModLoader::Vanilla ==> r == Err::<ModProvider, ProviderError>(
            ProviderError::NoModsOnLoader(loader),
        ),
        requested is None && loader == ModLoader::Fabric ==> r == Ok::<ModProvider, ProviderError>(
            ModProvider::Modrinth,
        ),
        requested is None && loader == ModLoader::Paper ==> r == Ok::<ModProvider, ProviderError>(
            ModProvider::Hangar,
        ),
{
    match requested {
        Some(p) => Ok(p),
        None => match loader.default_mod_provider() {
            Some(p) => Ok(p),
            None => Err(ProviderError::NoModsOnLoader(loader)),
        },
    }
}

} // verus!
