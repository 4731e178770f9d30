//! The cache of the game's JSON files: when it is refreshed, where the
//! release archive is fetched from, and which archive entries it keeps.
use vstd::prelude::*;

use crate::config::{opt_view, SerializableToolsetConfig};
use crate::params::same_text;

verus! {

/// `s` begins with `prefix`.
pub open spec fn has_prefix(s: Seq<char>, prefix: Seq<char>) -> bool {
    prefix.len() <= s.len() && s.subrange(0, prefix.len() as int) == prefix
}

/// Whether `s` begins with `prefix`.
pub fn starts_with(s: &str, prefix: &str) -> (r: bool)
    ensures
        r == has_prefix(s@, prefix@),
{
    let n = s.unicode_len();
    let m = prefix.unicode_len();
    if m > n {
        return false;
    }
    let mut k: usize = 0;
    while k < m
        invariant
            n == s@.len(),
            m == prefix@.len(),
            m <= n,
            k <= m,
            forall|j: int| 0 <= j < k ==> s@[j] == prefix@[j],
        decreases m - k,
    {
        if s.get_char(k) != prefix.get_char(k) {
            assert(s@.subrange(0, m as int)[k as int] != prefix@[k as int]);
            return false;
        }
        k = k + 1;
    }
    assert(s@.subrange(0, m as int) =~= prefix@);
    true
}

/// The cache is refreshed unless it holds the files of the expected version.
pub fn cache_needs_update(current_version: &str, expected_version: &str) -> (r: bool)
    ensures
        r == (current_version@ != expected_version@),
{
    !same_text(current_version, expected_version)
}

/// The address of the source archive of a release.
pub open spec fn release_url_of(major: Seq<char>, minor: Seq<char>) -> Seq<char> {
    "https://github.com/ja2-stracciatella/ja2-stracciatella/archive/refs/tags/v"@ + major + "."@ + minor + ".0.zip"@
}

/// The address of the source archive of the release `major.minor.0`.
pub fn release_url(major: &str, minor: &str) -> (r: String)
    ensures
        r@ == release_url_of(major@, minor@),
{
    let mut s = "https://github.com/ja2-stracciatella/ja2-stracciatella/archive/refs/tags/v".to_string();
    s.append(major);
    s.append(".");
    s.append(minor);
    s.append(".0.zip");
    s
}

/// The archive entries under `prefix`, each with its path below `prefix`.
pub open spec fn entries_under(names: Seq<String>, prefix: Seq<char>) -> Seq<(Seq<char>, Seq<char>)>
    decreases names.len(),
{
    if names.len() == 0 {
        Seq::empty()
    } else {
        let rest = entries_under(names.drop_last(), prefix);
        let name = names.last()@;
        if has_prefix(name, prefix) {
            rest.push((name, name.subrange(prefix.len() as int, name.len() as int)))
        } else {
            rest
        }
    }
}

/// The archive entries whose names begin with `prefix`, in archive order,
/// each with the rest of its name: where it goes below the cache directory.
pub fn externalized_entries(names: &Vec<String>, prefix: &str) -> (r: Vec<(String, String)>)
    ensures
        r@.len() == entries_under(names@, prefix@).len(),
        forall|i: int| 0 <= i < r@.len() ==> (#[trigger] r@[i].0@, r@[i].1@) == entries_under(names@, prefix@)[i],
{
    let mut result: Vec<(String, String)> = Vec::new();
    let mut i: usize = 0;
    while i < names.len()
        invariant
            i <= names@.len(),
            result@.len() == entries_under(names@.subrange(0, i as int), prefix@).len(),
            forall|j: int| 0 <= j < result@.len() ==> (#[trigger] result@[j].0@, result@[j].1@) == entries_under(
                names@.subrange(0, i as int),
                prefix@,
            )[j],
        decreases names@.len() - i,
    {
        let name = &names[i];
        proof {
            let next = names@.subrange(0, i + 1);
            assert(next.drop_last() =~= names@.subrange(0, i as int));
            assert(next.last() == *name);
        }
        if starts_with(name.as_str(), prefix) {
            let n = name.unicode_len();
            let m = prefix.unicode_len();
            let rest = name.as_str().substring_char(m, n);
            result.push((name.clone(), rest.to_owned()));
        }
        i = i + 1;
    }
    assert(names@.subrange(0, names@.len() as int) =~= names@);
    result
}

/// The JSON cache stands in for the install directory where none is set, or
/// where the install directory is the cache.
pub open spec fn uses_json_cache(install_dir: Option<Seq<char>>, cache_dir: Seq<char>) -> bool {
    install_dir is None || install_dir == Some(cache_dir)
}

/// A record as the caller reads it when the JSON cache may stand in for the
/// install directory: whether the cache is used, and the record with the
/// cache as install directory where it is.
pub fn with_json_cache_default(config: SerializableToolsetConfig, cache_dir: &str) -> (r: (SerializableToolsetConfig, bool))
    ensures
        r.1 == uses_json_cache(opt_view(config.config.stracciatella_install_dir), cache_dir@),
        r.0.partial == config.partial,
        r.0.config@.home == config.config@.home,
        r.0.config@.vanilla_dir == config.config@.vanilla_dir,
        r.0.config@.last_selected_mod == config.config@.last_selected_mod,
        r.0.config@.install_dir == if r.1 {
            Some(cache_dir@)
        } else {
            config.config@.install_dir
        },
{
    let mut config = config;
    let uses = match &config.config.stracciatella_install_dir {
        None => true,
        Some(dir) => same_text(dir.as_str(), cache_dir),
    };
    if uses {
        config.config.stracciatella_install_dir = Some(cache_dir.to_owned());
    }
    (config, uses)
}

/// The first path component of an archive entry's name: what comes before
/// its first `/`, or the whole name where it has none.
pub open spec fn root_of(name: Seq<char>) -> Seq<char>
    decreases name.len(),
{
    if name.len() == 0 {
        Seq::empty()
    } else if name[0] == '/' {
        Seq::empty()
    } else {
        seq![name[0]] + root_of(name.drop_first())
    }
}

/// The first path component of an archive entry's name.
pub fn root_component(name: &str) -> (r: String)
    ensures
        r@ == root_of(name@),
{
    let n = name.unicode_len();
    let mut k: usize = 0;
    proof {
        assert(name@.subrange(0, 0) =~= Seq::<char>::empty());
        assert(name@.subrange(0, n as int) =~= name@);
        assert(Seq::<char>::empty() + name@ =~= name@);
        assert(Seq::<char>::empty() + root_of(name@) =~= root_of(name@));
    }
    while k < n && name.get_char(k) != '/'
        invariant
            n == name@.len(),
            k <= n,
            root_of(name@) == name@.subrange(0, k as int) + root_of(name@.subrange(k as int, n as int)),
        decreases n - k,
    {
        proof {
            let rest = name@.subrange(k as int, n as int);
            let next = name@.subrange(k + 1, n as int);
            assert(rest.drop_first() =~= next);
            assert(rest[0] == name@[k as int]);
            assert(root_of(rest) == seq![rest[0]] + root_of(next));
            assert(name@.subrange(0, k + 1) =~= name@.subrange(0, k as int) + seq![rest[0]]);
            assert(name@.subrange(0, k as int) + (seq![rest[0]] + root_of(next)) =~= name@.subrange(0, k + 1)
                + root_of(next));
        }
        k = k + 1;
    }
    proof {
        let rest = name@.subrange(k as int, n as int);
        if k < n {
            assert(rest[0] == '/');
        }
        assert(root_of(rest) =~= Seq::<char>::empty());
        assert(root_of(name@) =~= name@.subrange(0, k as int));
    }
    name.substring_char(0, k).to_owned()
}

/// Entries that archivers on macOS add beside an archive's content.
pub open spec fn is_clutter(name: Seq<char>) -> bool {
    root_of(name) == "__MACOSX"@ || root_of(name) == ".DS_Store"@
}

/// The top directory that the entries seen so far lie in, as newer releases
/// of the zip crate find it with `root_dir` and its common filter: clutter is
/// skipped; `Ok(None)` while no other entry was seen; `Err(())` once an entry
/// lies at the top without a directory, or two entries lie in different ones.
pub open spec fn root_scan(names: Seq<String>) -> Result<Option<Seq<char>>, ()>
    decreases names.len(),
{
    if names.len() == 0 {
        Ok(None)
    } else {
        let n = names.last()@;
        match root_scan(names.drop_last()) {
            Err(()) => Err(()),
            Ok(acc) => if is_clutter(n) {
                Ok(acc)
            } else if root_of(n).len() == 0 || root_of(n) == n {
                Err(())
            } else {
                match acc {
                    None => Ok(Some(root_of(n))),
                    Some(r) => if r == root_of(n) {
                        Ok(Some(r))
                    } else {
                        Err(())
                    },
                }
            },
        }
    }
}

/// The directory that the archive's content lies in. The zip release that
/// this crate builds against has no `root_dir`, so the rule is written here.
pub fn archive_root(names: &Vec<String>) -> (r: Option<String>)
    ensures
        match root_scan(names@) {
            Ok(Some(root)) => r matches Some(s) && s@ == root,
            _ => r is None,
        },
{
    let mut acc: Option<String> = None;
    let mut failed = false;
    let mut i: usize = 0;
    while i < names.len()
        invariant
            i <= names@.len(),
            if failed {
                root_scan(names@.subrange(0, i as int)) == Err::<Option<Seq<char>>, ()>(())
            } else {
                root_scan(names@.subrange(0, i as int)) == Ok::<Option<Seq<char>>, ()>(opt_view(acc))
            },
        decreases names@.len() - i,
    {
        let n = &names[i];
        proof {
            let next = names@.subrange(0, i + 1);
            assert(next.drop_last() =~= names@.subrange(0, i as int));
            assert(next.last() == *n);
        }
        let root = root_component(n.as_str());
        if !failed {
            if same_text(root.as_str(), "__MACOSX") || same_text(root.as_str(), ".DS_Store") {
            } else if root.unicode_len() == 0 || same_text(root.as_str(), n.as_str()) {
                failed = true;
            } else {
                match &acc {
                    None => {
                        acc = Some(root);
                    },
                    Some(r) => {
                        if !same_text(r.as_str(), root.as_str()) {
                            failed = true;
                        }
                    },
                }
            }
        }
        i = i + 1;
    }
    assert(names@.subrange(0, names@.len() as int) =~= names@);
    if failed {
        None
    } else {
        acc
    }
}

/// The prefix of the entries that the cache keeps: the release's
/// externalized assets below the archive's root directory.
pub fn externalized_prefix(root: &str) -> (r: String)
    ensures
        r@ == root@ + "/assets/externalized/"@,
{
    let mut s = root.to_owned();
    s.append("/assets/externalized/");
    s
}

} // verus!
