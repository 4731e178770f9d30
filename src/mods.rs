//! Mod descriptors, the catalog of available mods, and the parameters of the
//! operations on mods.
use vstd::prelude::*;

use crate::error::{Error, ErrorKind};
use crate::params::same_text;

verus! {

/// What the catalog tells of one mod.
#[derive(Clone, Debug)]
pub struct Mod {
    pub id: String,
    pub name: String,
    pub description: String,
    pub version: String,
    pub path: String,
}

impl Mod {
    /// A field-by-field copy.
    pub fn duplicate(&self) -> (r: Mod)
        ensures
            r == *self,
    {
        Mod {
            id: self.id.clone(),
            name: self.name.clone(),
            description: self.description.clone(),
            version: self.version.clone(),
            path: self.path.clone(),
        }
    }
}

/// Per-mod settings of the toolset, stored beside the mod's manifest.
#[derive(Clone, Debug, Default)]
pub struct ModSettings {
    pub required_mods: Vec<String>,
}

impl ModSettings {
    /// The name of the settings file in a mod's directory.
    pub fn filename() -> (r: &'static str)
        ensures
            r@ == "toolset.json"@,
    {
        "toolset.json"
    }
}

/// A mod that the toolset may edit, with its settings where they could be read.
#[derive(Clone, Debug)]
pub struct EditableMod {
    pub m: Mod,
    pub settings: Option<ModSettings>,
}

/// Whether `path` lies under `base`, component by component.
pub uninterp spec fn path_starts_with(path: Seq<char>, base: Seq<char>) -> bool;

/// Relies on std::path::Path::starts_with: whether `base` is a prefix of
/// `path`, compared by whole components.
#[verifier::external_body]
fn path_has_prefix(path: &str, base: &str) -> (r: bool)
    ensures
        r == path_starts_with(path@, base@),
{
    std::path::Path::new(path).starts_with(base)
}

/// The position of the first mod with this id.
pub open spec fn first_with_id(mods: Seq<Mod>, id: Seq<char>, i: int) -> bool {
    0 <= i < mods.len() && mods[i].id@ == id && forall|j: int| 0 <= j < i ==> #[trigger] mods[j].id@ != id
}

/// Some mod of the sequence has this id.
pub open spec fn has_id(mods: Seq<Mod>, id: Seq<char>) -> bool {
    exists|i: int| 0 <= i < mods.len() && #[trigger] mods[i].id@ == id
}

/// The first mod with this id.
pub open spec fn mod_with_id(mods: Seq<Mod>, id: Seq<char>) -> Option<Mod> {
    if has_id(mods, id) {
        Some(mods[choose|i: int| first_with_id(mods, id, i)])
    } else {
        None
    }
}

/// The mods that do not lie under the install directory, in catalog order.
pub open spec fn editable_of(mods: Seq<Mod>, install_dir: Seq<char>) -> Seq<Mod>
    decreases mods.len(),
{
    if mods.len() == 0 {
        Seq::empty()
    } else {
        let rest = editable_of(mods.drop_last(), install_dir);
        if path_starts_with(mods.last().path@, install_dir) {
            rest
        } else {
            rest.push(mods.last())
        }
    }
}

/// The first index with the id is unique.
pub proof fn lemma_first_with_id_unique(mods: Seq<Mod>, id: Seq<char>, i: int, k: int)
    requires
        first_with_id(mods, id, i),
        first_with_id(mods, id, k),
    ensures
        i == k,
{
    if i < k {
        assert(mods[i].id@ != id);
    } else if k < i {
        assert(mods[k].id@ != id);
    }
}

/// The mods available for the current configuration.
#[derive(Clone, Debug)]
pub struct ModCatalog {
    pub mods: Vec<Mod>,
}

impl ModCatalog {
    /// The first mod with the given id, if any.
    pub fn get_mod_by_id(&self, id: &str) -> (r: Option<Mod>)
        ensures
            r == mod_with_id(self.mods@, id@),
    {
        let mut i: usize = 0;
        while i < self.mods.len()
            invariant
                i <= self.mods@.len(),
                forall|j: int| 0 <= j < i ==> #[trigger] self.mods@[j].id@ != id@,
            decreases self.mods@.len() - i,
        {
            if same_text(self.mods[i].id.as_str(), id) {
                proof {
                    assert(first_with_id(self.mods@, id@, i as int));
                    assert(has_id(self.mods@, id@));
                    let k = choose|k: int| first_with_id(self.mods@, id@, k);
                    lemma_first_with_id_unique(self.mods@, id@, i as int, k);
                }
                return Some(self.mods[i].duplicate());
            }
            i = i + 1;
        }
        None
    }

    /// The mods that do not lie under the install directory, in catalog order.
    pub fn editable_mods(&self, install_dir: &str) -> (r: Vec<Mod>)
        ensures
            r@ == editable_of(self.mods@, install_dir@),
    {
        let mut result: Vec<Mod> = Vec::new();
        let mut i: usize = 0;
        while i < self.mods.len()
            invariant
                i <= self.mods@.len(),
                result@ == editable_of(self.mods@.subrange(0, i as int), install_dir@),
            decreases self.mods@.len() - i,
        {
            let m = &self.mods[i];
            proof {
                let next = self.mods@.subrange(0, i + 1);
                assert(next.drop_last() =~= self.mods@.subrange(0, i as int));
                assert(next.last() == *m);
            }
            if !path_has_prefix(m.path.as_str(), install_dir) {
                result.push(m.duplicate());
            }
            i = i + 1;
        }
        assert(self.mods@.subrange(0, self.mods@.len() as int) =~= self.mods@);
        result
    }
}

/// Parameters of the operation that creates a mod.
#[derive(Clone, Debug)]
pub struct NewMod {
    pub id: String,
    pub name: String,
    pub description: Option<String>,
    pub version: String,
}

impl NewMod {
    pub fn name() -> (r: &'static str)
        ensures
            r@ == "new_mod"@,
    {
        "new_mod"
    }
}

/// Parameters of the operation that opens a mod for editing.
#[derive(Clone, Debug)]
pub struct SetSelectedMod {
    pub mod_id: String,
}

impl SetSelectedMod {
    pub fn name() -> (r: &'static str)
        ensures
            r@ == "set_selected_mod"@,
    {
        "set_selected_mod"
    }
}

/// The operation that lists every available mod.
#[derive(Clone, Copy, Debug)]
pub struct GetAvailableMods;

impl GetAvailableMods {
    pub fn name() -> (r: &'static str)
        ensures
            r@ == "get_available_mods"@,
    {
        "get_available_mods"
    }
}

/// The operation that lists the mods that the toolset may edit.
#[derive(Clone, Copy, Debug)]
pub struct GetEditableMods;

impl GetEditableMods {
    pub fn name() -> (r: &'static str)
        ensures
            r@ == "get_editable_mods"@,
    {
        "get_editable_mods"
    }
}

/// Refuses to create a mod whose directory already exists.
pub fn check_mod_dir_free(id: &str, dir_exists: bool) -> (r: Result<(), Error>)
    ensures
        r is Ok <==> !dir_exists,
        r matches Err(e) ==> e.kind == ErrorKind::Parameter,
{
    if dir_exists {
        let e = Error::new(ErrorKind::Parameter, id);
        Err(e.with_context("a mod with this id already exists"))
    } else {
        Ok(())
    }
}

} // verus!
