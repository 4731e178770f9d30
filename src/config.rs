//! Configuration records: the partial record that the user edits and the full
//! record that a configured session runs on.
use vstd::prelude::*;

use crate::dirs::{config_dir_of, join_path, joined_path, project_dirs};
use crate::error::{Error, ErrorKind};

verus! {

/// The fields of a configuration record, as values.
pub struct ConfigModel {
    pub home: Option<Seq<char>>,
    pub vanilla_dir: Option<Seq<char>>,
    pub install_dir: Option<Seq<char>>,
    pub last_selected_mod: Option<Seq<char>>,
}

impl ConfigModel {
    /// Home, vanilla directory and install directory are all present.
    pub open spec fn is_complete(self) -> bool {
        self.home is Some && self.vanilla_dir is Some && self.install_dir is Some
    }
}

pub open spec fn opt_view(o: Option<String>) -> Option<Seq<char>> {
    match o {
        Some(s) => Some(s@),
        None => None,
    }
}

pub fn clone_opt(o: &Option<String>) -> (r: Option<String>)
    ensures
        opt_view(r) == opt_view(*o),
{
    match o {
        Some(s) => Some(s.clone()),
        None => None,
    }
}

/// A configuration record whose fields may be missing.
#[derive(Clone, Debug, Default)]
pub struct PartialToolsetConfig {
    pub stracciatella_home: Option<String>,
    pub vanilla_game_dir: Option<String>,
    pub stracciatella_install_dir: Option<String>,
    pub last_selected_mod: Option<String>,
}

/// A configuration record with home, vanilla directory and install directory set.
#[derive(Clone, Debug)]
pub struct ToolsetConfig {
    pub stracciatella_home: String,
    pub vanilla_game_dir: String,
    pub stracciatella_install_dir: String,
    pub last_selected_mod: Option<String>,
}

impl View for PartialToolsetConfig {
    type V = ConfigModel;

    open spec fn view(&self) -> ConfigModel {
        ConfigModel {
            home: opt_view(self.stracciatella_home),
            vanilla_dir: opt_view(self.vanilla_game_dir),
            install_dir: opt_view(self.stracciatella_install_dir),
            last_selected_mod: opt_view(self.last_selected_mod),
        }
    }
}

impl View for ToolsetConfig {
    type V = ConfigModel;

    open spec fn view(&self) -> ConfigModel {
        ConfigModel {
            home: Some(self.stracciatella_home@),
            vanilla_dir: Some(self.vanilla_game_dir@),
            install_dir: Some(self.stracciatella_install_dir@),
            last_selected_mod: opt_view(self.last_selected_mod),
        }
    }
}

impl PartialToolsetConfig {
    /// A field-by-field copy.
    pub fn duplicate(&self) -> (r: PartialToolsetConfig)
        ensures
            r@ == self@,
    {
        PartialToolsetConfig {
            stracciatella_home: clone_opt(&self.stracciatella_home),
            vanilla_game_dir: clone_opt(&self.vanilla_game_dir),
            stracciatella_install_dir: clone_opt(&self.stracciatella_install_dir),
            last_selected_mod: clone_opt(&self.last_selected_mod),
        }
    }

    /// Promotes the record to a full one when home, vanilla directory and
    /// install directory are all present.
    pub fn to_full_config(&self) -> (r: Option<ToolsetConfig>)
        ensures
            r is Some <==> self@.is_complete(),
            r matches Some(full) ==> full@ == self@,
    {
        match (&self.stracciatella_home, &self.vanilla_game_dir, &self.stracciatella_install_dir) {
            (Some(home), Some(vanilla), Some(install)) => Some(
                ToolsetConfig {
                    stracciatella_home: home.clone(),
                    vanilla_game_dir: vanilla.clone(),
                    stracciatella_install_dir: install.clone(),
                    last_selected_mod: clone_opt(&self.last_selected_mod),
                },
            ),
            _ => None,
        }
    }
}

impl ToolsetConfig {
    /// Where the record is stored: `toolset-config.json` in the toolset's
    /// configuration directory for the current user.
    pub fn path() -> (r: Result<String, Error>)
        ensures
            r matches Ok(p) ==> exists|dir: Seq<char>| p@ == joined_path(dir, "toolset-config.json"@),
            r matches Err(e) ==> e.kind == ErrorKind::Io,
    {
        match project_dirs() {
            Ok(dirs) => {
                let dir = config_dir_of(&dirs);
                Ok(join_path(dir.as_str(), "toolset-config.json"))
            },
            Err(_) => Err(Error::new(ErrorKind::Io, "could not determine toolset config directory")),
        }
    }

    /// The same record with every field optional.
    pub fn to_partial(&self) -> (r: PartialToolsetConfig)
        ensures
            r@ == self@,
    {
        PartialToolsetConfig {
            stracciatella_home: Some(self.stracciatella_home.clone()),
            vanilla_game_dir: Some(self.vanilla_game_dir.clone()),
            stracciatella_install_dir: Some(self.stracciatella_install_dir.clone()),
            last_selected_mod: clone_opt(&self.last_selected_mod),
        }
    }

    /// Chooses the configuration to start with from what durable storage gave
    /// (`Ok(None)` where nothing is stored) and a guessed record: a stored
    /// complete record is taken; otherwise the guess comes back with the reason.
    pub fn from_stored(
        stored: Result<Option<PartialToolsetConfig>, Error>,
        guess: PartialToolsetConfig,
    ) -> (r: Result<ToolsetConfig, (Error, PartialToolsetConfig)>)
        ensures
            match stored {
                Ok(Some(p)) => if p@.is_complete() {
                    r matches Ok(c) && c@ == p@
                } else {
                    r matches Err((e, g)) && g == guess && e.kind == ErrorKind::NotFound
                },
                Ok(None) => if guess@.is_complete() {
                    r matches Ok(c) && c@ == guess@
                } else {
                    r matches Err((e, g)) && g == guess && e.kind == ErrorKind::NotFound
                },
                Err(e) => r == Err::<ToolsetConfig, (Error, PartialToolsetConfig)>((e, guess)),
            },
    {
        match stored {
            Err(e) => Err((e, guess)),
            Ok(Some(p)) => match p.to_full_config() {
                Some(full) => Ok(full),
                None => Err((Error::new(ErrorKind::NotFound, "failed to load full configuration"), guess)),
            },
            Ok(None) => match guess.to_full_config() {
                Some(full) => Ok(full),
                None => Err((Error::new(ErrorKind::NotFound, "failed to load full configuration"), guess)),
            },
        }
    }
}

/// A full record is complete: home, vanilla directory and install directory
/// are all present in it.
pub proof fn lemma_full_record_is_complete(a: ToolsetConfig)
    ensures
        a@.is_complete(),
{
}

/// A configuration record tagged with whether it is partial.
#[derive(Clone, Debug)]
pub struct SerializableToolsetConfig {
    pub partial: bool,
    pub config: PartialToolsetConfig,
}

} // verus!
