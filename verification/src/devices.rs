//! Decisions of the Device, Run and pairing commands: which paired Device a
//! selector names, what a fresh pairing is saved as, which Devices a new Run
//! inherits, and how durations reach the wire.

use vstd::prelude::*;
use vstd::utf8::encode_utf8;
use crate::click::WireDuration;
use crate::ids::views;
use crate::parse::{debug_quoted, debug_text, decimal_text, u64_text};
use crate::text::{is_blank, joined, join, owned, take_chars, text_eq, trim, trimmed, viewed};

verus! {

/// Byte-wise lexicographic order, the order of `str`'s `Ord`.
pub open spec fn bytes_le(a: Seq<u8>, b: Seq<u8>) -> bool {
    exists|k: int|
        0 <= k <= a.len() && k <= b.len() && a.take(k) == b.take(k) && (k == a.len() || (k < b.len() && a[k] < b[k]))
}

/// Strings ordered as `String`'s `Ord` orders them.
pub open spec fn sorted_texts(s: Seq<Seq<char>>) -> bool {
    forall|i: int, j: int| 0 <= i < j < s.len() ==> bytes_le(encode_utf8(#[trigger] s[i]), encode_utf8(#[trigger] s[j]))
}

/// `<[String]>::sort`: the same strings, in ascending order.
#[verifier::external_body]
fn sort_strings(v: &mut Vec<String>)
    ensures
        views(final(v)@).to_multiset() == views(old(v)@).to_multiset(),
        sorted_texts(views(final(v)@)),
{
    v.sort();
}

/// One paired Device in the pairing store: its stable id and its label.
#[derive(Clone, Debug, PartialEq, Eq)]
pub struct PairedDeviceRecord {
    pub pair_id: String,
    pub label: String,
}

/// The stable ids of the records labelled `name`, in store order.
pub open spec fn labelled_ids(records: Seq<PairedDeviceRecord>, name: Seq<char>) -> Seq<Seq<char>>
    decreases records.len(),
{
    if records.len() == 0 {
        Seq::empty()
    } else {
        let rest = labelled_ids(records.drop_last(), name);
        if records.last().label@ == name {
            rest.push(records.last().pair_id@)
        } else {
            rest
        }
    }
}

/// Some record has exactly this stable id.
pub open spec fn has_pair_id(records: Seq<PairedDeviceRecord>, id: Seq<char>) -> bool {
    exists|i: int| 0 <= i < records.len() && #[trigger] records[i].pair_id@ == id
}

pub open spec fn ambiguous_label_text(name: Seq<char>, listed: Seq<char>) -> Seq<char> {
    "paired Device name "@ + debug_text(name) + " is ambiguous; use one of these stable IDs: "@ + listed
}

/// Resolves a paired-Device selector (stable id or label) against the
/// pairing store's records. When a label is ambiguous, the error lists the
/// candidate ids in ascending order.
pub fn resolve_paired_device(selector: &str, records: &Vec<PairedDeviceRecord>) -> (r: Result<String, String>)
    ensures
        ({
            let name = trimmed(selector@);
            let candidates = labelled_ids(records@, name);
            if name.len() == 0 {
                r matches Err(m) && m@ == "Device selector must not be empty"@
            } else if has_pair_id(records@, name) {
                r matches Ok(v) && v@ == name
            } else if candidates.len() == 0 {
                r matches Err(m) && m@ == "unknown paired Device "@ + debug_text(name)
            } else if candidates.len() == 1 {
                r matches Ok(v) && v@ == candidates[0]
            } else {
                r matches Err(m) && exists|sorted: Seq<Seq<char>>| {
                    &&& sorted.to_multiset() == candidates.to_multiset()
                    &&& sorted_texts(sorted)
                    &&& m@ == ambiguous_label_text(name, joined(sorted, ", "@))
                }
            }
        }),
{
    let s = trim(selector);
    let ghost name = trimmed(selector@);
    if s.unicode_len() == 0 {
        return Err(owned("Device selector must not be empty"));
    }
    let mut i: usize = 0;
    while i < records.len()
        invariant
            i <= records.len(),
            name == s@,
            name == trimmed(selector@),
            s@.len() > 0,
            forall|j: int| 0 <= j < i ==> records@[j].pair_id@ != s@,
        decreases records.len() - i,
    {
        if text_eq(records[i].pair_id.as_str(), s.as_str()) {
            proof {
                assert(has_pair_id(records@, s@));
            }
            return Ok(s);
        }
        i = i + 1;
    }
    let mut matches: Vec<String> = Vec::new();
    let mut k: usize = 0;
    while k < records.len()
        invariant
            k <= records.len(),
            name == s@,
            name == trimmed(selector@),
            views(matches@) == labelled_ids(records@.take(k as int), name),
        decreases records.len() - k,
    {
        proof {
            assert(records@.take(k + 1).drop_last() =~= records@.take(k as int));
        }
        if text_eq(records[k].label.as_str(), s.as_str()) {
            matches.push(records[k].pair_id.clone());
            assert(views(matches@) =~= labelled_ids(records@.take(k as int), name).push(records@[k as int].pair_id@));
        }
        k = k + 1;
    }
    assert(records@.take(records.len() as int) =~= records@);
    let ghost unsorted = views(matches@);
    sort_strings(&mut matches);
    proof {
        crate::devices::lemma_same_multiset_same_len(views(matches@), unsorted);
    }
    if matches.len() == 0 {
        let mut m = owned("unknown paired Device ");
        let q = debug_quoted(s.as_str());
        m.append(q.as_str());
        Err(m)
    } else if matches.len() == 1 {
        proof {
            lemma_single_multiset_same(views(matches@), unsorted);
        }
        Ok(matches[0].clone())
    } else {
        let mut m = owned("paired Device name ");
        let q = debug_quoted(s.as_str());
        m.append(q.as_str());
        m.append(" is ambiguous; use one of these stable IDs: ");
        let listed = join(&matches, ", ");
        m.append(listed.as_str());
        proof {
            assert(matches@.map_values(|p: String| p@) == views(matches@));
        }
        Err(m)
    }
}

/// Sequences with the same multiset have the same length.
proof fn lemma_same_multiset_same_len(a: Seq<Seq<char>>, b: Seq<Seq<char>>)
    requires
        a.to_multiset() == b.to_multiset(),
    ensures
        a.len() == b.len(),
{
    vstd::seq_lib::to_multiset_len(a);
    vstd::seq_lib::to_multiset_len(b);
}

/// Two one-element sequences with the same multiset are equal.
proof fn lemma_single_multiset_same(a: Seq<Seq<char>>, b: Seq<Seq<char>>)
    requires
        a.to_multiset() == b.to_multiset(),
        a.len() == 1,
        b.len() == 1,
    ensures
        a[0] == b[0],
{
    broadcast use vstd::seq_lib::to_multiset_contains;
    assert(a.contains(a[0]));
    assert(a.to_multiset().contains(a[0]));
    assert(b.to_multiset().contains(a[0]));
    assert(b.contains(a[0]));
}

/// One Device as a daemon lists it: its stable id (when present), its
/// display name, and whether it is the caller's own machine.
#[derive(Clone, Debug, PartialEq, Eq)]
pub struct DeviceSummary {
    pub device_id: Option<String>,
    pub name: String,
    /// The name of the Device's platform enum value, e.g. `DEVICE_PLATFORM_MACOS`.
    pub platform: String,
    pub local: bool,
}

/// The Devices a daemon lists as local to its caller, in listed order.
pub open spec fn local_devices(devices: Seq<DeviceSummary>) -> Seq<DeviceSummary>
    decreases devices.len(),
{
    if devices.len() == 0 {
        Seq::empty()
    } else {
        let rest = local_devices(devices.drop_last());
        if devices.last().local {
            rest.push(devices.last())
        } else {
            rest
        }
    }
}

/// The identity a freshly paired endpoint reports for itself: its single
/// caller-local Device, which must carry a non-empty id.
pub open spec fn paired_remote_result(devices: Seq<DeviceSummary>) -> Result<(Seq<char>, Seq<char>), Seq<char>> {
    let locals = local_devices(devices);
    if locals.len() != 1 {
        Err("paired endpoint returned "@ + decimal_text(locals.len()) + " caller-local Devices; expected exactly one"@)
    } else {
        match locals[0].device_id {
            Some(id) => if id@.len() > 0 {
                Ok((id@, locals[0].name@))
            } else {
                Err("paired endpoint returned a Device without an ID"@)
            },
            None => Err("paired endpoint returned a Device without an ID"@),
        }
    }
}

/// The id and name of the Device a pairing connected to.
pub fn paired_remote_device(devices: &Vec<DeviceSummary>) -> (r: Result<(String, String), String>)
    ensures
        match paired_remote_result(devices@) {
            Ok((id, name)) => r matches Ok((i, n)) && i@ == id && n@ == name,
            Err(e) => r matches Err(m) && m@ == e,
        },
{
    let mut locals: Vec<usize> = Vec::new();
    let mut k: usize = 0;
    while k < devices.len()
        invariant
            k <= devices.len(),
            locals@.len() == local_devices(devices@.take(k as int)).len(),
            forall|j: int| 0 <= j < locals@.len() ==> (#[trigger] locals@[j]) < k
                && devices@[locals@[j] as int] == local_devices(devices@.take(k as int))[j],
        decreases devices.len() - k,
    {
        proof {
            assert(devices@.take(k + 1).drop_last() =~= devices@.take(k as int));
        }
        if devices[k].local {
            locals.push(k);
        }
        k = k + 1;
    }
    assert(devices@.take(devices.len() as int) =~= devices@);
    if locals.len() != 1 {
        let mut m = owned("paired endpoint returned ");
        let n = u64_text(locals.len() as u64);
        m.append(n.as_str());
        m.append(" caller-local Devices; expected exactly one");
        return Err(m);
    }
    let remote = &devices[locals[0]];
    match &remote.device_id {
        Some(id) => if id.unicode_len() > 0 {
            Ok((id.clone(), remote.name.clone()))
        } else {
            Err(owned("paired endpoint returned a Device without an ID"))
        },
        None => Err(owned("paired endpoint returned a Device without an ID")),
    }
}

/// One saved paired-Device profile: its name and the Device it reaches.
/// A saved paired-Device profile: its name, and the Device it reaches.
#[derive(Clone, Debug, PartialEq, Eq)]
pub struct ConfiguredProfile {
    pub config_profile: String,
    pub device_id: String,
    pub device_name: String,
    pub endpoint: String,
}

/// The name of the first saved profile that reaches `device_id`, if any.
pub open spec fn existing_profile_spec(profiles: Seq<ConfiguredProfile>, device_id: Seq<char>) -> Option<Seq<char>>
    decreases profiles.len(),
{
    if profiles.len() == 0 {
        None
    } else if profiles[0].device_id@ == device_id {
        Some(profiles[0].config_profile@)
    } else {
        existing_profile_spec(profiles.drop_first(), device_id)
    }
}

/// Finds the saved profile that already reaches a Device.
pub fn existing_profile(profiles: &Vec<ConfiguredProfile>, device_id: &str) -> (r: Option<String>)
    ensures
        match existing_profile_spec(profiles@, device_id@) {
            Some(name) => r matches Some(n) && n@ == name,
            None => r is None,
        },
{
    let mut i: usize = 0;
    assert(profiles@.subrange(0, profiles@.len() as int) =~= profiles@);
    while i < profiles.len()
        invariant
            i <= profiles.len(),
            existing_profile_spec(profiles@, device_id@) == existing_profile_spec(profiles@.subrange(i as int, profiles@.len() as int), device_id@),
        decreases profiles.len() - i,
    {
        let ghost rest = profiles@.subrange(i as int, profiles@.len() as int);
        assert(rest.drop_first() =~= profiles@.subrange(i + 1, profiles@.len() as int));
        if text_eq(profiles[i].device_id.as_str(), device_id) {
            return Some(profiles[i].config_profile.clone());
        }
        i = i + 1;
    }
    None
}

/// The profile name a pairing saves under: the one asked for, else the
/// existing profile of that Device, else the Device's name, else the first
/// twelve characters of its id.
pub open spec fn pairing_profile_name_spec(profile: Option<Seq<char>>, existing: Option<Seq<char>>, remote_name: Seq<char>, remote_id: Seq<char>) -> Seq<char> {
    match profile {
        Some(p) => p,
        None => match existing {
            Some(e) => e,
            None => if remote_name.len() == 0 {
                remote_id.take(if remote_id.len() < 12 { remote_id.len() as int } else { 12 })
            } else {
                remote_name
            },
        },
    }
}

pub open spec fn option_view(o: Option<String>) -> Option<Seq<char>> {
    match o {
        Some(s) => Some(s@),
        None => None,
    }
}

pub fn pairing_profile_name(profile: Option<String>, existing: Option<String>, remote_name: &str, remote_id: &str) -> (r: String)
    ensures
        r@ == pairing_profile_name_spec(option_view(profile), option_view(existing), remote_name@, remote_id@),
{
    match profile {
        Some(p) => p,
        None => match existing {
            Some(e) => e,
            None => if remote_name.unicode_len() == 0 {
                take_chars(remote_id, 12)
            } else {
                owned(remote_name)
            },
        },
    }
}

/// The name a pairing is announced under: the Device's name, else its profile.
pub fn pairing_display_name(device_name: &str, profile_name: &str) -> (r: String)
    ensures
        r@ == (if device_name@.len() == 0 { profile_name@ } else { device_name@ }),
{
    if device_name.unicode_len() == 0 {
        owned(profile_name)
    } else {
        owned(device_name)
    }
}

/// A pairing-token lifetime on the wire: whole seconds, saturated to the
/// protobuf range.
pub fn token_ttl(ttl: Option<u64>) -> (r: Option<WireDuration>)
    ensures
        match ttl {
            None => r is None,
            Some(s) => r == Some(WireDuration { seconds: if s <= i64::MAX { s as i64 } else { i64::MAX }, nanos: 0 }),
        },
{
    match ttl {
        None => None,
        Some(seconds) => {
            let s: i64 = if seconds <= i64::MAX as u64 { seconds as i64 } else { i64::MAX };
            Some(WireDuration { seconds: s, nanos: 0 })
        },
    }
}

/// The grace period of a Runner stop on the wire; a timeout beyond the
/// protobuf range is refused.
pub fn runner_grace_period(timeout: Option<u64>) -> (r: Result<Option<WireDuration>, String>)
    ensures
        match timeout {
            None => r == Ok::<Option<WireDuration>, String>(None),
            Some(s) => if s <= i64::MAX {
                r == Ok::<Option<WireDuration>, String>(Some(WireDuration { seconds: s as i64, nanos: 0 }))
            } else {
                r matches Err(m) && m@ == "--timeout exceeds the protobuf duration range"@
            },
        },
{
    match timeout {
        None => Ok(None),
        Some(seconds) => if seconds <= i64::MAX as u64 {
            Ok(Some(WireDuration { seconds: seconds as i64, nanos: 0 }))
        } else {
            Err(owned("--timeout exceeds the protobuf duration range"))
        },
    }
}

/// A new Run inherits the selected Device unless Devices are named.
pub fn inherited_device_ids(device_ids: &Vec<String>, context_device_id: &Option<String>) -> (r: Vec<String>)
    ensures
        device_ids@.len() == 0 ==> match context_device_id {
            Some(d) => views(r@) == seq![d@],
            None => r@.len() == 0,
        },
        device_ids@.len() > 0 ==> views(r@) == views(device_ids@),
{
    if device_ids.len() == 0 {
        let mut r = Vec::new();
        match context_device_id {
            Some(d) => {
                r.push(d.clone());
                assert(views(r@) =~= seq![d@]);
            },
            None => {},
        }
        r
    } else {
        let mut r: Vec<String> = Vec::new();
        let mut i: usize = 0;
        while i < device_ids.len()
            invariant
                i <= device_ids.len(),
                r@.len() == i,
                forall|j: int| 0 <= j < i ==> (#[trigger] r@[j])@ == device_ids@[j]@,
            decreases device_ids.len() - i,
        {
            let c = device_ids[i].clone();
            r.push(c);
            i = i + 1;
        }
        assert(views(r@) =~= views(device_ids@));
        r
    }
}

/// `auv run create` starts a new Run and cannot append to a selected one.
pub fn reject_run_for_create(selected_run_id: &Option<String>) -> (r: Result<(), String>)
    ensures
        r is Err <==> selected_run_id is Some,
        r matches Err(m) ==> m@ == "root --run cannot be combined with `auv run create`"@,
{
    if selected_run_id.is_some() {
        return Err(owned("root --run cannot be combined with `auv run create`"));
    }
    Ok(())
}

/// The endpoint `auv devices pair connect` pairs with: it must be named,
/// as the remote `http://` endpoint that issued the token.
pub fn connect_endpoint(endpoint: Option<String>) -> (r: Result<String, String>)
    ensures
        match endpoint {
            Some(e) => r == Ok::<String, String>(e),
            None => r matches Err(m) && m@ == "pair connect requires --endpoint http://HOST:PORT"@,
        },
{
    match endpoint {
        Some(e) => Ok(e),
        None => Err(owned("pair connect requires --endpoint http://HOST:PORT")),
    }
}

} // verus!
