//! Discovery of external `auv-*` command plugins on `PATH`: which files are
//! plugins, which of them are visible, and what the listing warns about.

use vstd::prelude::*;
use crate::devices::bytes_le;
use crate::parse::{debug_quoted, debug_text};
use crate::text::{chars_of, has_prefix, owned, slice_chars, starts_with, text_eq};
use vstd::utf8::encode_utf8;

verus! {

/// The prefix every plugin executable's file name carries.
pub open spec fn plugin_prefix() -> Seq<char> {
    "auv-"@
}

/// Commands the root frontend implements itself.
pub open spec fn is_builtin_command(name: Seq<char>) -> bool {
    ||| name == "doctor"@
    ||| name == "invoke"@
    ||| name == "session"@
    ||| name == "mcp"@
    ||| name == "plugin"@
}

/// The executable that implements an external command.
pub fn executable_name(command_name: &str) -> (r: String)
    ensures
        r@ == plugin_prefix() + command_name@,
{
    let mut r = owned("auv-");
    r.append(command_name);
    r
}

/// The command a file name provides, when it is named like a plugin.
pub open spec fn plugin_command_spec(file_name: Seq<char>) -> Option<Seq<char>> {
    if has_prefix(file_name, plugin_prefix()) {
        Some(file_name.subrange(4, file_name.len() as int))
    } else {
        None
    }
}

pub fn plugin_command_name(file_name: &str) -> (r: Option<String>)
    ensures
        match plugin_command_spec(file_name@) {
            Some(name) => r matches Some(n) && n@ == name,
            None => r is None,
        },
{
    proof {
        reveal_strlit("auv-");
    }
    if starts_with(file_name, "auv-") {
        let cs = chars_of(file_name);
        Some(slice_chars(&cs, 4, cs.len()))
    } else {
        None
    }
}

pub fn is_builtin(name: &str) -> (r: bool)
    ensures
        r == is_builtin_command(name@),
{
    text_eq(name, "doctor") || text_eq(name, "invoke") || text_eq(name, "session") || text_eq(name, "mcp") || text_eq(
        name,
        "plugin",
    )
}

/// One directory entry found on `PATH`: its file name, its displayed path,
/// and whether it is an executable file.
#[derive(Clone, Debug, PartialEq, Eq)]
pub struct PluginCandidate {
    pub file_name: String,
    pub path: String,
    pub executable: bool,
}

/// The entries of one directory in file-name order.
pub open spec fn sorted_by_file_name(entries: Seq<PluginCandidate>) -> bool {
    forall|i: int, j: int| 0 <= i < j < entries.len() ==>
        bytes_le(encode_utf8(#[trigger] entries[i].file_name@), encode_utf8(#[trigger] entries[j].file_name@))
}

/// `<[T]>::sort_by_key` on file names: the same entries, in file-name order.
#[verifier::external_body]
fn sort_by_file_name(entries: &mut Vec<PluginCandidate>)
    ensures
        final(entries)@.to_multiset() == old(entries)@.to_multiset(),
        sorted_by_file_name(final(entries)@),
{
    entries.sort_by_key(|entry| entry.file_name.clone());
}

/// The scan state: visible commands with their paths, plugins found, warnings.
pub struct PluginScan {
    pub seen: Seq<(Seq<char>, Seq<char>)>,
    pub plugins: Seq<Seq<char>>,
    pub warnings: Seq<Seq<char>>,
}

/// The path of the visible plugin that provides `name`, if any.
pub open spec fn visible_path(seen: Seq<(Seq<char>, Seq<char>)>, name: Seq<char>) -> Option<Seq<char>>
    decreases seen.len(),
{
    if seen.len() == 0 {
        None
    } else if seen.last().0 == name {
        Some(seen.last().1)
    } else {
        visible_path(seen.drop_last(), name)
    }
}

pub open spec fn not_executable_text(path: Seq<char>) -> Seq<char> {
    path + " is named like an AUV plugin but is not executable"@
}

pub open spec fn shadowed_text(path: Seq<char>, visible: Seq<char>) -> Seq<char> {
    path + " is shadowed by "@ + visible + " earlier on PATH"@
}

pub open spec fn builtin_collision_text(path: Seq<char>, name: Seq<char>) -> Seq<char> {
    path + " collides with built-in command `"@ + name + "`"@
}

/// One entry's effect on the scan: non-plugins are skipped; a plugin that
/// is not executable, or whose command an earlier directory already
/// provides, is reported and skipped; a visible plugin is listed, with a
/// warning when it collides with a built-in command.
pub open spec fn scan_step(state: PluginScan, entry: PluginCandidate) -> PluginScan {
    match plugin_command_spec(entry.file_name@) {
        None => state,
        Some(name) => if !entry.executable {
            PluginScan { warnings: state.warnings.push(not_executable_text(entry.path@)), ..state }
        } else {
            match visible_path(state.seen, name) {
                Some(visible) => PluginScan { warnings: state.warnings.push(shadowed_text(entry.path@, visible)), ..state },
                None => {
                    let warnings = if is_builtin_command(name) {
                        state.warnings.push(builtin_collision_text(entry.path@, name))
                    } else {
                        state.warnings
                    };
                    PluginScan {
                        seen: state.seen.push((name, entry.path@)),
                        plugins: state.plugins.push(entry.path@),
                        warnings,
                    }
                },
            }
        },
    }
}

/// The scan of entries in order.
pub open spec fn scan(entries: Seq<PluginCandidate>) -> PluginScan
    decreases entries.len(),
{
    if entries.len() == 0 {
        PluginScan { seen: Seq::empty(), plugins: Seq::empty(), warnings: Seq::empty() }
    } else {
        scan_step(scan(entries.drop_last()), entries.last())
    }
}

/// The result of listing plugins: their paths, the warnings, and the exit
/// status (1 when anything was warned about).
pub struct PluginListing {
    pub plugins: Vec<String>,
    pub warnings: Vec<String>,
    pub exit_code: i32,
}

/// The directories' entries, each directory sorted, in `PATH` order.
pub open spec fn flattened(directories: Seq<Seq<PluginCandidate>>) -> Seq<PluginCandidate>
    decreases directories.len(),
{
    if directories.len() == 0 {
        Seq::empty()
    } else {
        flattened(directories.drop_last()) + directories.last()
    }
}

pub open spec fn texts(values: Seq<String>) -> Seq<Seq<char>> {
    values.map_values(|v: String| v@)
}

pub open spec fn pair_texts(values: Seq<(String, String)>) -> Seq<(Seq<char>, Seq<char>)> {
    values.map_values(|p: (String, String)| (p.0@, p.1@))
}

fn lookup_visible(seen: &Vec<(String, String)>, name: &str) -> (r: Option<String>)
    ensures
        match visible_path(pair_texts(seen@), name@) {
            Some(p) => r matches Some(v) && v@ == p,
            None => r is None,
        },
{
    let ghost pairs = pair_texts(seen@);
    let mut i: usize = seen.len();
    assert(pairs.take(i as int) =~= pairs);
    while i > 0
        invariant
            i <= seen@.len(),
            pairs == pair_texts(seen@),
            visible_path(pairs, name@) == visible_path(pairs.take(i as int), name@),
        decreases i,
    {
        assert(pairs.take(i as int).drop_last() =~= pairs.take(i - 1));
        if text_eq(seen[i - 1].0.as_str(), name) {
            return Some(seen[i - 1].1.clone());
        }
        i = i - 1;
    }
    assert(pairs.take(0) =~= Seq::<(Seq<char>, Seq<char>)>::empty());
    None
}

fn concat3(a: &str, b: &str, c: &str) -> (r: String)
    ensures
        r@ == a@ + b@ + c@,
{
    let mut r = owned(a);
    r.append(b);
    r.append(c);
    r
}

proof fn lemma_flattened_push(directories: Seq<Seq<PluginCandidate>>, last: Seq<PluginCandidate>)
    ensures
        flattened(directories.push(last)) == flattened(directories) + last,
{
    assert(directories.push(last).drop_last() =~= directories);
}

/// Lists the plugins visible through the given `PATH` directories, whose
/// entries are taken in file-name order.
pub fn list_plugins(directories: Vec<Vec<PluginCandidate>>) -> (listing: PluginListing)
    ensures
        exists|sorted: Seq<Seq<PluginCandidate>>| {
            &&& sorted.len() == directories@.len()
            &&& forall|d: int| 0 <= d < sorted.len() ==> {
                &&& (#[trigger] sorted[d]).to_multiset() == directories@[d]@.to_multiset()
                &&& sorted_by_file_name(sorted[d])
            }
            &&& texts(listing.plugins@) == scan(flattened(sorted)).plugins
            &&& texts(listing.warnings@) == scan(flattened(sorted)).warnings
        },
        listing.exit_code == (if listing.warnings@.len() > 0 { 1i32 } else { 0i32 }),
{
    let ghost given = directories@;
    let mut rest = directories;
    let mut entries: Vec<PluginCandidate> = Vec::new();
    let ghost mut sorted: Seq<Seq<PluginCandidate>> = Seq::empty();
    while rest.len() > 0
        invariant
            sorted.len() + rest@.len() == given.len(),
            rest@ == given.subrange(sorted.len() as int, given.len() as int),
            forall|k: int| 0 <= k < sorted.len() ==> {
                &&& (#[trigger] sorted[k]).to_multiset() == given[k]@.to_multiset()
                &&& sorted_by_file_name(sorted[k])
            },
            entries@ == flattened(sorted),
        decreases rest@.len(),
    {
        let mut dir = rest.remove(0);
        sort_by_file_name(&mut dir);
        proof {
            lemma_flattened_push(sorted, dir@);
            sorted = sorted.push(dir@);
        }
        entries.append(&mut dir);
    }
    let mut seen: Vec<(String, String)> = Vec::new();
    let mut plugins: Vec<String> = Vec::new();
    let mut warnings: Vec<String> = Vec::new();
    let mut i: usize = 0;
    while i < entries.len()
        invariant
            i <= entries@.len(),
            pair_texts(seen@) == scan(entries@.take(i as int)).seen,
            texts(plugins@) == scan(entries@.take(i as int)).plugins,
            texts(warnings@) == scan(entries@.take(i as int)).warnings,
        decreases entries@.len() - i,
    {
        assert(entries@.take(i + 1).drop_last() =~= entries@.take(i as int));
        let entry = &entries[i];
        let ghost before = scan(entries@.take(i as int));
        match plugin_command_name(entry.file_name.as_str()) {
            None => {},
            Some(name) => {
                if !entry.executable {
                    let w = concat3(entry.path.as_str(), " is named like an AUV plugin but is not executable", "");
                    proof { reveal_strlit(""); }
                    assert(w@ =~= not_executable_text(entry.path@));
                    warnings.push(w);
                } else {
                    match lookup_visible(&seen, name.as_str()) {
                        Some(visible) => {
                            let mut w = concat3(entry.path.as_str(), " is shadowed by ", visible.as_str());
                            w.append(" earlier on PATH");
                            assert(w@ =~= shadowed_text(entry.path@, visible@));
                            warnings.push(w);
                        },
                        None => {
                            if is_builtin(name.as_str()) {
                                let mut w = concat3(entry.path.as_str(), " collides with built-in command `", name.as_str());
                                w.append("`");
                                assert(w@ =~= builtin_collision_text(entry.path@, name@));
                                warnings.push(w);
                            }
                            seen.push((name.clone(), entry.path.clone()));
                            plugins.push(entry.path.clone());
                        },
                    }
                }
            },
        }
        proof {
            assert(pair_texts(seen@) =~= scan(entries@.take(i + 1)).seen);
            assert(texts(plugins@) =~= scan(entries@.take(i + 1)).plugins);
            assert(texts(warnings@) =~= scan(entries@.take(i + 1)).warnings);
        }
        i = i + 1;
    }
    assert(entries@.take(entries@.len() as int) =~= entries@);
    let exit_code: i32 = if warnings.len() > 0 { 1 } else { 0 };
    PluginListing { plugins, warnings, exit_code }
}

/// The first executable candidate, in `PATH` order.
pub open spec fn first_executable(candidates: Seq<PluginCandidate>) -> Option<Seq<char>>
    decreases candidates.len(),
{
    if candidates.len() == 0 {
        None
    } else if candidates[0].executable {
        Some(candidates[0].path@)
    } else {
        first_executable(candidates.drop_first())
    }
}

pub open spec fn unknown_command_text(command_name: Seq<char>) -> Seq<char> {
    "unknown command "@ + debug_text(command_name) + "; no "@ + debug_text(plugin_prefix() + command_name)
        + " executable was found on PATH"@
}

/// Resolves the executable of an external command among the candidates
/// found for it, one per `PATH` directory in order: the first executable
/// one, or an error naming the command.
pub fn resolve_executable(command_name: &str, candidates: &Vec<PluginCandidate>) -> (r: Result<String, String>)
    ensures
        match first_executable(candidates@) {
            Some(path) => r matches Ok(p) && p@ == path,
            None => r matches Err(e) && e@ == unknown_command_text(command_name@),
        },
{
    let mut i: usize = 0;
    assert(candidates@.subrange(0, candidates@.len() as int) =~= candidates@);
    while i < candidates.len()
        invariant
            i <= candidates@.len(),
            first_executable(candidates@) == first_executable(candidates@.subrange(i as int, candidates@.len() as int)),
        decreases candidates@.len() - i,
    {
        let ghost rest = candidates@.subrange(i as int, candidates@.len() as int);
        assert(rest.drop_first() =~= candidates@.subrange(i + 1, candidates@.len() as int));
        if candidates[i].executable {
            return Ok(candidates[i].path.clone());
        }
        i = i + 1;
    }
    assert(candidates@.subrange(i as int, candidates@.len() as int) =~= Seq::<PluginCandidate>::empty());
    let mut e = owned("unknown command ");
    let quoted = debug_quoted(command_name);
    e.append(quoted.as_str());
    e.append("; no ");
    let executable = executable_name(command_name);
    let quoted_executable = debug_quoted(executable.as_str());
    e.append(quoted_executable.as_str());
    e.append(" executable was found on PATH");
    Err(e)
}

/// Where `name` is visible in `seen`.
proof fn lemma_visible_path_absent(seen: Seq<(Seq<char>, Seq<char>)>, name: Seq<char>)
    ensures
        visible_path(seen, name) is None <==> forall|i: int| 0 <= i < seen.len() ==> (#[trigger] seen[i]).0 != name,
    decreases seen.len(),
{
    if seen.len() > 0 {
        lemma_visible_path_absent(seen.drop_last(), name);
        assert forall|i: int| 0 <= i < seen.len() - 1 implies seen.drop_last()[i] == #[trigger] seen[i] by {}
    }
}

/// A plugin listing never lists two executables for one command: each
/// command is provided by the first executable plugin for it on `PATH`,
/// and the listed paths are exactly those of the visible commands, in order.
pub proof fn lemma_listed_commands_are_distinct(entries: Seq<PluginCandidate>)
    ensures
        forall|i: int, j: int|
            0 <= i < j < scan(entries).seen.len() ==> (#[trigger] scan(entries).seen[i]).0 != (
            #[trigger] scan(entries).seen[j]).0,
        scan(entries).plugins == scan(entries).seen.map_values(|p: (Seq<char>, Seq<char>)| p.1),
    decreases entries.len(),
{
    if entries.len() > 0 {
        let before = scan(entries.drop_last());
        lemma_listed_commands_are_distinct(entries.drop_last());
        let entry = entries.last();
        match plugin_command_spec(entry.file_name@) {
            None => {},
            Some(name) => {
                if entry.executable {
                    lemma_visible_path_absent(before.seen, name);
                    let after = scan(entries);
                    if visible_path(before.seen, name) is None {
                        assert(after.seen == before.seen.push((name, entry.path@)));
                        assert forall|i: int, j: int| 0 <= i < j < after.seen.len() implies (
                        #[trigger] after.seen[i]).0 != (#[trigger] after.seen[j]).0 by {
                            if j == after.seen.len() - 1 {
                                assert(after.seen[i] == before.seen[i]);
                            } else {
                                assert(after.seen[i] == before.seen[i]);
                                assert(after.seen[j] == before.seen[j]);
                            }
                        }
                        assert(after.plugins =~= after.seen.map_values(|p: (Seq<char>, Seq<char>)| p.1));
                    }
                }
            },
        }
    }
}

} // verus!
