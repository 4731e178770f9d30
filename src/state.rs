//! The session state machine: unconfigured with a partial record, or
//! configured with a full record, the mod catalog, the engine's handles and at
//! most one open mod.
//!
//! The engine's handles are opaque here: `C` stands for what a configured
//! session holds of the engine (its mod manager and schema catalog), `V` for
//! the layered filesystem view of an open mod. Whatever builds them (and may
//! fail doing so) runs before a transition, and the transition takes the
//! outcome.
use vstd::prelude::*;

use crate::config::{ConfigModel, PartialToolsetConfig, SerializableToolsetConfig, ToolsetConfig};
use crate::error::{Error, ErrorKind};
use crate::mods::{has_id, mod_with_id, Mod, ModCatalog, NewMod, check_mod_dir_free};

verus! {

/// A mod open for editing: its descriptor and its layered filesystem view.
#[derive(Debug)]
pub struct OpenedMod<V> {
    pub m: Mod,
    pub vfs: V,
}

/// The session, as the state machine sees it.
#[derive(Debug)]
pub enum ToolsetState<C, V> {
    NotConfigured { config: PartialToolsetConfig },
    Configured {
        config: ToolsetConfig,
        catalog: ModCatalog,
        engine: C,
        opened_mod: Option<OpenedMod<V>>,
    },
}

/// The session as values: the engine's handles left out.
pub enum SessionModel {
    NotConfigured { config: ConfigModel },
    Configured { config: ConfigModel, catalog: Seq<Mod>, open: Option<Mod> },
}

impl SessionModel {
    pub open spec fn config(self) -> ConfigModel {
        match self {
            SessionModel::NotConfigured { config } => config,
            SessionModel::Configured { config, .. } => config,
        }
    }
}

impl<C, V> View for ToolsetState<C, V> {
    type V = SessionModel;

    open spec fn view(&self) -> SessionModel {
        match self {
            ToolsetState::NotConfigured { config } => SessionModel::NotConfigured { config: config@ },
            ToolsetState::Configured { config, catalog, opened_mod, .. } => SessionModel::Configured {
                config: config@,
                catalog: catalog.mods@,
                open: match opened_mod {
                    Some(o) => Some(o.m),
                    None => None,
                },
            },
        }
    }
}

/// What `read_config` reports of a session: whether its record is partial,
/// and the record.
pub open spec fn reported(s: SessionModel) -> (bool, ConfigModel) {
    (s is NotConfigured, s.config())
}

/// The catalog that a passed configuration test built; `None` for a failed test.
pub open spec fn tested_catalog<C>(tested: Result<(ModCatalog, C), Error>) -> Option<Seq<Mod>> {
    match tested {
        Ok((catalog, _)) => Some(catalog.mods@),
        Err(_) => None,
    }
}

/// The session after a configuration update with `new`. A record that cannot
/// be promoted leaves the session unconfigured whatever the test gave; a
/// complete one that passed its test configures it anew with no open mod; a
/// failed test changes nothing.
pub open spec fn after_update(s: SessionModel, new: ConfigModel, tested: Option<Seq<Mod>>) -> SessionModel {
    if !new.is_complete() {
        SessionModel::NotConfigured { config: new }
    } else {
        match tested {
            Some(catalog) => SessionModel::Configured { config: new, catalog, open: None },
            None => s,
        }
    }
}

/// A configuration update succeeds unless a complete record failed its test.
pub open spec fn update_succeeds(new: ConfigModel, tested: Option<Seq<Mod>>) -> bool {
    !new.is_complete() || tested is Some
}

/// What selecting the mod `id` gives: the mod, or the kind of the failure.
/// `built` says whether its filesystem view could be built.
pub open spec fn select_outcome(s: SessionModel, id: Seq<char>, built: bool) -> Result<Mod, Option<ErrorKind>> {
    match s {
        SessionModel::NotConfigured { .. } => Err(Some(ErrorKind::State)),
        SessionModel::Configured { catalog, .. } => match mod_with_id(catalog, id) {
            None => Err(Some(ErrorKind::NotFound)),
            Some(m) => if built {
                Ok(m)
            } else {
                Err(None)
            },
        },
    }
}

/// The session after selecting the mod `id`: only a successful selection
/// changes it, and then only its open mod.
pub open spec fn after_select(s: SessionModel, id: Seq<char>, built: bool) -> SessionModel {
    match select_outcome(s, id, built) {
        Ok(m) => match s {
            SessionModel::Configured { config, catalog, .. } => SessionModel::Configured { config, catalog, open: Some(m) },
            SessionModel::NotConfigured { .. } => s,
        },
        Err(_) => s,
    }
}

/// An update with a record that lacks home, vanilla directory or install
/// directory succeeds and leaves the session unconfigured with that record,
/// whatever its test would have given: no mod catalog and no open mod
/// survive it.
pub proof fn lemma_incomplete_record_unconfigures(s: SessionModel, new: ConfigModel, tested: Option<Seq<Mod>>)
    requires
        !new.is_complete(),
    ensures
        update_succeeds(new, tested),
        after_update(s, new, tested) == (SessionModel::NotConfigured { config: new }),
        reported(after_update(s, new, tested)) == (true, new),
{
}

/// An update with a complete record that fails its test fails, and leaves the
/// session as it was: a later read reports what it reported before.
pub proof fn lemma_failed_test_keeps_session(s: SessionModel, new: ConfigModel)
    requires
        new.is_complete(),
    ensures
        !update_succeeds(new, None),
        after_update(s, new, None) == s,
        reported(after_update(s, new, None)) == reported(s),
{
}

/// After a successful update with a complete record, a read reports that
/// record, not partial.
pub proof fn lemma_update_then_read(s: SessionModel, a: ConfigModel, catalog: Seq<Mod>)
    requires
        a.is_complete(),
    ensures
        update_succeeds(a, Some(catalog)),
        reported(after_update(s, a, Some(catalog))) == (false, a),
{
}

/// An update never pairs the new record with the previous open mod: the
/// session is either left whole, or holds the new record and no open mod.
pub proof fn lemma_update_is_whole(s: SessionModel, new: ConfigModel, tested: Option<Seq<Mod>>)
    ensures
        after_update(s, new, tested) == s || (after_update(s, new, tested).config() == new && match after_update(
            s,
            new,
            tested,
        ) {
            SessionModel::Configured { open, .. } => open is None,
            SessionModel::NotConfigured { .. } => true,
        }),
{
}

/// Selecting an id that the catalog does not hold fails with a not-found
/// error and leaves the session, its open mod included, as it was.
pub proof fn lemma_select_unknown_id(s: SessionModel, id: Seq<char>, built: bool)
    requires
        s is Configured,
        !has_id(s->catalog, id),
    ensures
        select_outcome(s, id, built) == Err::<Mod, Option<ErrorKind>>(Some(ErrorKind::NotFound)),
        after_select(s, id, built) == s,
{
}

/// A successful selection opens the catalog's mod with that id and keeps the
/// record and the catalog.
pub proof fn lemma_select_opens_catalog_mod(s: SessionModel, id: Seq<char>)
    requires
        s is Configured,
        has_id(s->catalog, id),
    ensures
        select_outcome(s, id, true) == Ok::<Mod, Option<ErrorKind>>(mod_with_id(s->catalog, id)->0),
        after_select(s, id, true) == (SessionModel::Configured {
            config: s.config(),
            catalog: s->catalog,
            open: mod_with_id(s->catalog, id),
        }),
{
}

impl<C, V> ToolsetState<C, V> {
    /// The engine's handles: those of the configured session, and the view of
    /// its open mod.
    pub open spec fn handles(&self) -> (Option<C>, Option<V>) {
        match self {
            ToolsetState::NotConfigured { .. } => (None, None),
            ToolsetState::Configured { engine, opened_mod, .. } => (Some(*engine), match opened_mod {
                Some(o) => Some(o.vfs),
                None => None,
            }),
        }
    }

    /// A configured session with no open mod.
    pub fn configured(config: ToolsetConfig, catalog: ModCatalog, engine: C) -> (r: Self)
        ensures
            r@ == (SessionModel::Configured { config: config@, catalog: catalog.mods@, open: None }),
            r.handles() == (Some(engine), None::<V>),
    {
        ToolsetState::Configured { config, catalog, engine, opened_mod: None }
    }

    /// An unconfigured session holding a partial record.
    pub fn not_configured(config: PartialToolsetConfig) -> (r: Self)
        ensures
            r@ == (SessionModel::NotConfigured { config: config@ }),
    {
        ToolsetState::NotConfigured { config }
    }

    /// The current record, tagged with whether it is partial.
    pub fn read_config(&self) -> (r: SerializableToolsetConfig)
        ensures
            (r.partial, r.config@) == reported(self@),
    {
        match self {
            ToolsetState::NotConfigured { config } => SerializableToolsetConfig {
                partial: true,
                config: config.duplicate(),
            },
            ToolsetState::Configured { config, .. } => SerializableToolsetConfig {
                partial: false,
                config: config.to_partial(),
            },
        }
    }

    pub fn try_config(&self) -> (r: Result<&ToolsetConfig, Error>)
        ensures
            match self {
                ToolsetState::Configured { config, .. } => r == Ok::<&ToolsetConfig, Error>(config),
                ToolsetState::NotConfigured { .. } => r matches Err(e) && e.kind == ErrorKind::State,
            },
    {
        match self {
            ToolsetState::Configured { config, .. } => Ok(config),
            ToolsetState::NotConfigured { .. } => Err(Error::new(ErrorKind::State, "config not initialized")),
        }
    }

    pub fn try_mod_catalog(&self) -> (r: Result<&ModCatalog, Error>)
        ensures
            match self {
                ToolsetState::Configured { catalog, .. } => r == Ok::<&ModCatalog, Error>(catalog),
                ToolsetState::NotConfigured { .. } => r matches Err(e) && e.kind == ErrorKind::State,
            },
    {
        match self {
            ToolsetState::Configured { catalog, .. } => Ok(catalog),
            ToolsetState::NotConfigured { .. } => Err(Error::new(ErrorKind::State, "mod manager not initialized")),
        }
    }

    pub fn try_engine(&self) -> (r: Result<&C, Error>)
        ensures
            match self {
                ToolsetState::Configured { engine, .. } => r == Ok::<&C, Error>(engine),
                ToolsetState::NotConfigured { .. } => r matches Err(e) && e.kind == ErrorKind::State,
            },
    {
        match self {
            ToolsetState::Configured { engine, .. } => Ok(engine),
            ToolsetState::NotConfigured { .. } => Err(Error::new(ErrorKind::State, "schema manager not initialized")),
        }
    }

    pub fn try_selected_mod(&self) -> (r: Result<&OpenedMod<V>, Error>)
        ensures
            match self {
                ToolsetState::Configured { opened_mod: Some(o), .. } => r == Ok::<&OpenedMod<V>, Error>(o),
                _ => r matches Err(e) && e.kind == ErrorKind::State,
            },
    {
        match self {
            ToolsetState::Configured { opened_mod: Some(o), .. } => Ok(o),
            _ => Err(Error::new(ErrorKind::State, "no mod selected")),
        }
    }

    /// Applies a new configuration record. `tested` is the outcome of testing
    /// its promoted record (a catalog and the engine's handles built from it,
    /// and the record persisted); it is not looked at when the record cannot
    /// be promoted.
    pub fn update_config(&mut self, new: PartialToolsetConfig, tested: Result<(ModCatalog, C), Error>) -> (r: Result<
        SerializableToolsetConfig,
        Error,
    >)
        ensures
            final(self)@ == after_update(old(self)@, new@, tested_catalog(tested)),
            r is Ok <==> update_succeeds(new@, tested_catalog(tested)),
            r matches Ok(c) ==> (c.partial, c.config@) == reported(final(self)@),
            r matches Err(e) ==> e.kind == ErrorKind::ConfigTest && (tested matches Err(cause) && e.message@
                == "failed to test config"@ + ": "@ + cause.message@),
            final(self).handles() == if !new@.is_complete() {
                (None, None)
            } else {
                match tested {
                    Ok((_, engine)) => (Some(engine), None),
                    Err(_) => old(self).handles(),
                }
            },
    {
        match new.to_full_config() {
            None => {
                *self = ToolsetState::NotConfigured { config: new };
            },
            Some(full) => match tested {
                Ok((catalog, engine)) => {
                    *self = ToolsetState::Configured { config: full, catalog, engine, opened_mod: None };
                },
                Err(e) => {
                    let failure = Error { kind: ErrorKind::ConfigTest, message: e.message };
                    return Err(failure.with_context("failed to test config"));
                },
            },
        }
        Ok(self.read_config())
    }

    /// Stores a record tagged as partial or full. A record tagged partial
    /// makes the session unconfigured as it stands; one tagged full is applied
    /// like `update_config`, so that a record that cannot be promoted makes
    /// the session unconfigured too.
    pub fn set_toolset_config(&mut self, tagged: SerializableToolsetConfig, tested: Result<(ModCatalog, C), Error>) -> (r:
        Result<SerializableToolsetConfig, Error>)
        ensures
            tagged.partial ==> final(self)@ == (SessionModel::NotConfigured { config: tagged.config@ }) && (r is Ok),
            !tagged.partial ==> final(self)@ == after_update(old(self)@, tagged.config@, tested_catalog(tested)) && (r is Ok
                <==> update_succeeds(tagged.config@, tested_catalog(tested))),
            r matches Ok(c) ==> (c.partial, c.config@) == reported(final(self)@),
            r matches Err(e) ==> e.kind == ErrorKind::ConfigTest && (tested matches Err(cause) && e.message@
                == "failed to test config"@ + ": "@ + cause.message@),
    {
        if tagged.partial {
            *self = ToolsetState::NotConfigured { config: tagged.config };
            return Ok(self.read_config());
        }
        self.update_config(tagged.config, tested)
    }

    /// The mod with this id in the current catalog, before its view is built.
    pub fn lookup_mod(&self, id: &str) -> (r: Result<Mod, Error>)
        ensures
            match select_outcome(self@, id@, true) {
                Ok(m) => r == Ok::<Mod, Error>(m),
                Err(k) => r matches Err(e) && Some(e.kind) == k,
            },
            select_outcome(self@, id@, true) == Err::<Mod, Option<ErrorKind>>(Some(ErrorKind::NotFound)) ==> (r matches Err(
                e,
            ) && e.message@ == "failed to find mod `"@ + id@ + "`"@),
    {
        match self {
            ToolsetState::NotConfigured { .. } => Err(Error::new(ErrorKind::State, "toolset state not configured")),
            ToolsetState::Configured { catalog, .. } => match catalog.get_mod_by_id(id) {
                Some(m) => Ok(m),
                None => {
                    let mut msg = "failed to find mod `".to_string();
                    msg.append(id);
                    msg.append("`");
                    Err(Error { kind: ErrorKind::NotFound, message: msg })
                },
            },
        }
    }

    /// Opens the mod `id` with the view `built` that was built for it,
    /// replacing the open mod. A failure leaves the session as it was.
    pub fn select_mod(&mut self, id: &str, built: Result<V, Error>) -> (r: Result<Mod, Error>)
        ensures
            final(self)@ == after_select(old(self)@, id@, built is Ok),
            match select_outcome(old(self)@, id@, built is Ok) {
                Ok(m) => r == Ok::<Mod, Error>(m),
                Err(Some(k)) => r matches Err(e) && e.kind == k,
                Err(None) => r matches Err(e) && built matches Err(b) && e.kind == b.kind,
            },
            select_outcome(old(self)@, id@, built is Ok) == Err::<Mod, Option<ErrorKind>>(Some(ErrorKind::NotFound)) ==> (
            r matches Err(e) && e.message@ == "failed to find mod `"@ + id@ + "`"@),
            final(self).handles() == match (select_outcome(old(self)@, id@, built is Ok), built) {
                (Ok(_), Ok(v)) => (old(self).handles().0, Some(v)),
                _ => old(self).handles(),
            },
    {
        let m = match self.lookup_mod(id) {
            Ok(m) => m,
            Err(e) => {
                return Err(e);
            },
        };
        let vfs = match built {
            Ok(v) => v,
            Err(e) => {
                return Err(e.with_context("failed to initialize open mod"));
            },
        };
        match self {
            ToolsetState::Configured { opened_mod, .. } => {
                let result = m.duplicate();
                *opened_mod = Some(OpenedMod { m, vfs });
                Ok(result)
            },
            ToolsetState::NotConfigured { .. } => Err(Error::new(ErrorKind::State, "toolset state not configured")),
        }
    }

    /// Checks that a mod may be created: the session is configured and no
    /// directory exists for the id. Nothing changes either way.
    pub fn check_new_mod(&self, new: &NewMod, dir_exists: bool) -> (r: Result<(), Error>)
        ensures
            r is Ok <==> (self@ is Configured && !dir_exists),
            r matches Err(e) ==> e.kind == (if self@ is Configured {
                ErrorKind::Parameter
            } else {
                ErrorKind::State
            }),
    {
        match self {
            ToolsetState::NotConfigured { .. } => Err(Error::new(ErrorKind::State, "toolset state not configured")),
            ToolsetState::Configured { .. } => check_mod_dir_free(new.id.as_str(), dir_exists),
        }
    }

    /// Replaces the catalog and the engine's handles with ones rebuilt from
    /// disk, keeping the record and the open mod.
    pub fn reload_catalog(&mut self, catalog: ModCatalog, engine: C) -> (r: Result<(), Error>)
        ensures
            r is Ok <==> old(self)@ is Configured,
            r matches Err(e) ==> e.kind == ErrorKind::State,
            match old(self)@ {
                SessionModel::Configured { config, open, .. } => final(self)@ == (SessionModel::Configured {
                    config,
                    catalog: catalog.mods@,
                    open,
                }) && final(self).handles() == (Some(engine), old(self).handles().1),
                SessionModel::NotConfigured { .. } => final(self)@ == old(self)@ && final(self).handles()
                    == old(self).handles(),
            },
    {
        match self {
            ToolsetState::Configured { catalog: c, engine: e, .. } => {
                *c = catalog;
                *e = engine;
                Ok(())
            },
            ToolsetState::NotConfigured { .. } => Err(Error::new(ErrorKind::State, "toolset state not configured")),
        }
    }
}

/// The open mod of a configured session.
pub fn get_selected_mod<C, V>(state: &ToolsetState<C, V>) -> (r: Result<&OpenedMod<V>, Error>)
    ensures
        match state {
            ToolsetState::Configured { opened_mod: Some(o), .. } => r == Ok::<&OpenedMod<V>, Error>(o),
            _ => r matches Err(e) && e.kind == ErrorKind::State,
        },
{
    match state {
        ToolsetState::Configured { opened_mod, .. } => match opened_mod {
            Some(o) => Ok(o),
            None => Err(Error::new(ErrorKind::State, "no mod selected")),
        },
        ToolsetState::NotConfigured { .. } => Err(Error::new(ErrorKind::State, "get_selected_mod not available in this editor state")),
    }
}

} // verus!
