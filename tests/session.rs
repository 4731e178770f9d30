use stracciatella_toolset::config::{PartialToolsetConfig, SerializableToolsetConfig, ToolsetConfig};
use stracciatella_toolset::error::{Error, ErrorKind};
use stracciatella_toolset::mods::{Mod, ModCatalog, NewMod};
use stracciatella_toolset::state::{get_selected_mod, ToolsetState};

type State = ToolsetState<&'static str, u32>;

fn some(s: &str) -> Option<String> {
    Some(s.to_string())
}

fn full_partial(home: &str) -> PartialToolsetConfig {
    PartialToolsetConfig {
        stracciatella_home: some(home),
        vanilla_game_dir: some("/games/ja2"),
        stracciatella_install_dir: some("/opt/ja2"),
        last_selected_mod: None,
    }
}

fn a_mod(id: &str, path: &str) -> Mod {
    Mod {
        id: id.to_string(),
        name: format!("{} name", id),
        description: String::new(),
        version: "1.0".to_string(),
        path: path.to_string(),
    }
}

fn catalog() -> ModCatalog {
    ModCatalog { mods: vec![a_mod("alpha", "/home/u/.ja2/mods/alpha"), a_mod("beta", "/home/u/.ja2/mods/beta")] }
}

fn configured() -> State {
    let config = full_partial("/home/u/.ja2").to_full_config().unwrap();
    ToolsetState::configured(config, catalog(), "engine")
}

fn io_error(msg: &str) -> Error {
    Error::new(ErrorKind::Io, msg)
}

fn assert_reads(state: &State, partial: bool, home: Option<&str>) {
    let read: SerializableToolsetConfig = state.read_config();
    assert_eq!(read.partial, partial);
    assert_eq!(read.config.stracciatella_home.as_deref(), home);
}

#[test]
fn to_full_config_promotes_complete_record() {
    let mut p = full_partial("/h");
    p.last_selected_mod = some("alpha");
    let full: ToolsetConfig = p.to_full_config().unwrap();
    assert_eq!(full.stracciatella_home, "/h");
    assert_eq!(full.vanilla_game_dir, "/games/ja2");
    assert_eq!(full.stracciatella_install_dir, "/opt/ja2");
    assert_eq!(full.last_selected_mod.as_deref(), Some("alpha"));
    let back = full.to_partial();
    assert_eq!(back.stracciatella_home.as_deref(), Some("/h"));
    assert_eq!(back.last_selected_mod.as_deref(), Some("alpha"));
}

#[test]
fn to_full_config_needs_each_required_field() {
    let mut p = full_partial("/h");
    p.stracciatella_home = None;
    assert!(p.to_full_config().is_none());
    let mut p = full_partial("/h");
    p.vanilla_game_dir = None;
    assert!(p.to_full_config().is_none());
    let mut p = full_partial("/h");
    p.stracciatella_install_dir = None;
    assert!(p.to_full_config().is_none());
    assert!(PartialToolsetConfig::default().to_full_config().is_none());
}

#[test]
fn from_stored_takes_complete_record() {
    let r = ToolsetConfig::from_stored(Ok(Some(full_partial("/stored"))), PartialToolsetConfig::default());
    assert_eq!(r.unwrap().stracciatella_home, "/stored");
}

#[test]
fn from_stored_falls_back_to_guess() {
    let mut guess = PartialToolsetConfig::default();
    guess.stracciatella_home = some("/guessed");
    let r = ToolsetConfig::from_stored(Ok(Some(PartialToolsetConfig::default())), guess.clone());
    let (e, g) = r.unwrap_err();
    assert_eq!(e.kind, ErrorKind::NotFound);
    assert_eq!(g.stracciatella_home.as_deref(), Some("/guessed"));

    let r = ToolsetConfig::from_stored(Ok(None), full_partial("/complete-guess"));
    assert_eq!(r.unwrap().stracciatella_home, "/complete-guess");

    let r = ToolsetConfig::from_stored(Err(io_error("unreadable")), guess);
    let (e, g) = r.unwrap_err();
    assert_eq!(e.kind, ErrorKind::Io);
    assert_eq!(e.message, "unreadable");
    assert_eq!(g.stracciatella_home.as_deref(), Some("/guessed"));
}

#[test]
fn incomplete_update_unconfigures_whatever_the_test() {
    let mut state = configured();
    let mut p = PartialToolsetConfig::default();
    p.stracciatella_home = some("/only-home");
    let r = state.update_config(p.clone(), Ok((catalog(), "unused"))).unwrap();
    assert!(r.partial);
    assert_reads(&state, true, Some("/only-home"));
    assert!(matches!(state, ToolsetState::NotConfigured { .. }));

    let mut state = configured();
    let r = state.update_config(p, Err(io_error("would have failed"))).unwrap();
    assert!(r.partial);
    assert!(state.try_config().is_err());
}

#[test]
fn failed_test_keeps_previous_session() {
    let mut state = configured();
    state.select_mod("alpha", Ok(7)).unwrap();
    let r = state.update_config(full_partial("/new-home"), Err(io_error("vfs init failed")));
    let e = r.unwrap_err();
    assert_eq!(e.kind, ErrorKind::ConfigTest);
    assert_eq!(e.message, "failed to test config: vfs init failed");
    assert_reads(&state, false, Some("/home/u/.ja2"));
    assert_eq!(state.try_selected_mod().unwrap().vfs, 7);
    assert_eq!(*state.try_engine().unwrap(), "engine");
}

#[test]
fn failed_test_keeps_unconfigured_session() {
    let mut state: State = ToolsetState::not_configured(PartialToolsetConfig::default());
    let r = state.update_config(full_partial("/x"), Err(io_error("bad")));
    assert_eq!(r.unwrap_err().kind, ErrorKind::ConfigTest);
    assert_reads(&state, true, None);
}

#[test]
fn update_then_read_round_trip() {
    let mut state: State = ToolsetState::not_configured(PartialToolsetConfig::default());
    let mut a = full_partial("/a-home");
    a.last_selected_mod = some("beta");
    let r = state.update_config(a, Ok((catalog(), "fresh"))).unwrap();
    assert!(!r.partial);
    let read = state.read_config();
    assert!(!read.partial);
    assert_eq!(read.config.stracciatella_home.as_deref(), Some("/a-home"));
    assert_eq!(read.config.vanilla_game_dir.as_deref(), Some("/games/ja2"));
    assert_eq!(read.config.stracciatella_install_dir.as_deref(), Some("/opt/ja2"));
    assert_eq!(read.config.last_selected_mod.as_deref(), Some("beta"));
    assert_eq!(*state.try_engine().unwrap(), "fresh");
}

#[test]
fn update_discards_open_mod() {
    let mut state = configured();
    state.select_mod("beta", Ok(1)).unwrap();
    state.update_config(full_partial("/other"), Ok((catalog(), "other"))).unwrap();
    assert_eq!(state.try_selected_mod().unwrap_err().kind, ErrorKind::State);
    assert_reads(&state, false, Some("/other"));
}

#[test]
fn select_unknown_mod_keeps_open_mod() {
    let mut state = configured();
    state.select_mod("alpha", Ok(3)).unwrap();
    let e = state.select_mod("gamma", Ok(4)).unwrap_err();
    assert_eq!(e.kind, ErrorKind::NotFound);
    assert_eq!(e.message, "failed to find mod `gamma`");
    let open = state.try_selected_mod().unwrap();
    assert_eq!(open.m.id, "alpha");
    assert_eq!(open.vfs, 3);
}

#[test]
fn select_known_mod_opens_it() {
    let mut state = configured();
    let m = state.select_mod("beta", Ok(9)).unwrap();
    assert_eq!(m.id, "beta");
    assert_eq!(m.path, "/home/u/.ja2/mods/beta");
    let open = get_selected_mod(&state).unwrap();
    assert_eq!(open.m.id, "beta");
    assert_eq!(open.vfs, 9);
}

#[test]
fn select_with_failed_view_keeps_open_mod() {
    let mut state = configured();
    state.select_mod("alpha", Ok(3)).unwrap();
    let e = state.select_mod("beta", Err(io_error("layer missing"))).unwrap_err();
    assert_eq!(e.kind, ErrorKind::Io);
    assert_eq!(e.message, "failed to initialize open mod: layer missing");
    assert_eq!(state.try_selected_mod().unwrap().m.id, "alpha");
}

#[test]
fn select_needs_configured_session() {
    let mut state: State = ToolsetState::not_configured(PartialToolsetConfig::default());
    assert_eq!(state.select_mod("alpha", Ok(1)).unwrap_err().kind, ErrorKind::State);
    assert_eq!(state.lookup_mod("alpha").unwrap_err().kind, ErrorKind::State);
    assert_eq!(get_selected_mod(&state).unwrap_err().kind, ErrorKind::State);
    assert_eq!(state.try_mod_catalog().unwrap_err().kind, ErrorKind::State);
}

#[test]
fn lookup_mod_reports_missing_id() {
    let state = configured();
    assert_eq!(state.lookup_mod("beta").unwrap().id, "beta");
    let e = state.lookup_mod("zeta").unwrap_err();
    assert_eq!(e.kind, ErrorKind::NotFound);
    assert_eq!(e.message, "failed to find mod `zeta`");
}

#[test]
fn create_mod_over_existing_dir_changes_nothing() {
    let state = configured();
    let new = NewMod { id: "alpha".to_string(), name: "A".to_string(), description: None, version: "1".to_string() };
    let e = state.check_new_mod(&new, true).unwrap_err();
    assert_eq!(e.kind, ErrorKind::Parameter);
    assert_eq!(state.try_mod_catalog().unwrap().mods.len(), 2);
    assert!(state.check_new_mod(&new, false).is_ok());
    let unconfigured: State = ToolsetState::not_configured(PartialToolsetConfig::default());
    assert_eq!(unconfigured.check_new_mod(&new, false).unwrap_err().kind, ErrorKind::State);
}

#[test]
fn create_mod_reloads_catalog_then_selects() {
    let mut state = configured();
    state.select_mod("alpha", Ok(1)).unwrap();
    let mut bigger = catalog();
    bigger.mods.push(a_mod("gamma", "/home/u/.ja2/mods/gamma"));
    state.reload_catalog(bigger, "reloaded").unwrap();
    assert_eq!(state.try_selected_mod().unwrap().m.id, "alpha");
    assert_eq!(*state.try_engine().unwrap(), "reloaded");
    let m = state.select_mod("gamma", Ok(2)).unwrap();
    assert_eq!(m.id, "gamma");
    let mut unconfigured: State = ToolsetState::not_configured(PartialToolsetConfig::default());
    assert_eq!(unconfigured.reload_catalog(catalog(), "x").unwrap_err().kind, ErrorKind::State);
}

#[test]
fn set_toolset_config_follows_partial_flag() {
    let mut state = configured();
    let tagged = SerializableToolsetConfig { partial: true, config: full_partial("/tagged") };
    let r = state.set_toolset_config(tagged, Ok((catalog(), "x"))).unwrap();
    assert!(r.partial);
    assert_reads(&state, true, Some("/tagged"));

    let mut state = configured();
    let mut incomplete = PartialToolsetConfig::default();
    incomplete.stracciatella_home = some("/half");
    let tagged = SerializableToolsetConfig { partial: false, config: incomplete };
    let r = state.set_toolset_config(tagged, Err(io_error("not run"))).unwrap();
    assert!(r.partial);
    assert_reads(&state, true, Some("/half"));

    let mut state = configured();
    let tagged = SerializableToolsetConfig { partial: false, config: full_partial("/failing") };
    let e = state.set_toolset_config(tagged, Err(io_error("could not initialize vfs: no layer"))).unwrap_err();
    assert_eq!(e.kind, ErrorKind::ConfigTest);
    assert_eq!(e.message, "failed to test config: could not initialize vfs: no layer");
    assert_reads(&state, false, Some("/home/u/.ja2"));

    let tagged = SerializableToolsetConfig { partial: false, config: full_partial("/full") };
    let r = state.set_toolset_config(tagged, Ok((catalog(), "y"))).unwrap();
    assert!(!r.partial);
    assert_reads(&state, false, Some("/full"));
}

#[test]
fn error_context_is_prefixed() {
    let e = Error::new(ErrorKind::Io, "disk full").with_context("failed to write value");
    assert_eq!(e.kind, ErrorKind::Io);
    assert_eq!(e.to_message(), "failed to write value: disk full");
}
