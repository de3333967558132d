//! Which Devices `auv devices list` shows: the daemon's Devices that match
//! the root selection, then the saved paired profiles that match it and
//! that the daemon did not already list, each with its probe status.

use vstd::prelude::*;
use crate::devices::{ConfiguredProfile, DeviceSummary};
use crate::ids::{id_matches, id_matches_spec};
use crate::text::{owned, text_eq};

verus! {

/// Whether a Device answers the root Device selection: its id matches the
/// selected id (exactly or by compact prefix) and its name equals the
/// selected name, for each selector given.
pub open spec fn device_selected(device: DeviceSummary, device_id: Option<Seq<char>>, device_name: Option<Seq<char>>) -> bool {
    &&& match device_id {
        Some(id) => device.device_id matches Some(d) && id_matches_spec(d@, id),
        None => true,
    }
    &&& match device_name {
        Some(name) => device.name@ == name,
        None => true,
    }
}

/// Whether a saved profile answers the root Device selection.
pub open spec fn profile_selected(profile: ConfiguredProfile, device_id: Option<Seq<char>>, device_name: Option<Seq<char>>) -> bool {
    &&& match device_id {
        Some(id) => id_matches_spec(profile.device_id@, id),
        None => true,
    }
    &&& match device_name {
        Some(name) => profile.device_name@ == name,
        None => true,
    }
}

pub open spec fn str_view(s: Option<&str>) -> Option<Seq<char>> {
    match s {
        Some(v) => Some(v@),
        None => None,
    }
}

pub open spec fn selected_devices(devices: Seq<DeviceSummary>, device_id: Option<Seq<char>>, device_name: Option<Seq<char>>) -> Seq<DeviceSummary> {
    devices.filter(|d: DeviceSummary| device_selected(d, device_id, device_name))
}

pub open spec fn selected_profiles(profiles: Seq<ConfiguredProfile>, device_id: Option<Seq<char>>, device_name: Option<Seq<char>>) -> Seq<ConfiguredProfile> {
    profiles.filter(|p: ConfiguredProfile| profile_selected(p, device_id, device_name))
}

fn is_device_selected(device: &DeviceSummary, device_id: Option<&str>, device_name: Option<&str>) -> (r: bool)
    ensures
        r == device_selected(*device, str_view(device_id), str_view(device_name)),
{
    let id_ok = match device_id {
        Some(id) => match &device.device_id {
            Some(d) => id_matches(d.as_str(), id),
            None => false,
        },
        None => true,
    };
    let name_ok = match device_name {
        Some(name) => text_eq(device.name.as_str(), name),
        None => true,
    };
    id_ok && name_ok
}

fn is_profile_selected(profile: &ConfiguredProfile, device_id: Option<&str>, device_name: Option<&str>) -> (r: bool)
    ensures
        r == profile_selected(*profile, str_view(device_id), str_view(device_name)),
{
    let id_ok = match device_id {
        Some(id) => id_matches(profile.device_id.as_str(), id),
        None => true,
    };
    let name_ok = match device_name {
        Some(name) => text_eq(profile.device_name.as_str(), name),
        None => true,
    };
    id_ok && name_ok
}

/// The daemon's Devices that answer the root selection, in their order.
pub fn select_devices(devices: Vec<DeviceSummary>, device_id: Option<&str>, device_name: Option<&str>) -> (r: Vec<DeviceSummary>)
    ensures
        r@ == selected_devices(devices@, str_view(device_id), str_view(device_name)),
{
    let mut kept: Vec<DeviceSummary> = Vec::new();
    let mut rest = devices;
    let total: usize = rest.len();
    let ghost all = rest@;
    assert(all.len() == total);
    let mut i: usize = 0;
    while rest.len() > 0
        invariant
            i + rest@.len() == all.len(),
            rest@ == all.subrange(i as int, all.len() as int),
            all.len() <= usize::MAX,
            kept@ == selected_devices(all.take(i as int), str_view(device_id), str_view(device_name)),
        decreases rest@.len(),
    {
        let device = rest.remove(0);
        proof {
            assert(all.take(i + 1).drop_last() =~= all.take(i as int));
            assert(all[i as int] == device);
            reveal(Seq::filter);
        }
        if is_device_selected(&device, device_id, device_name) {
            kept.push(device);
        }
        i = i + 1;
    }
    assert(all.take(all.len() as int) =~= all);
    kept
}

/// The saved profiles that answer the root selection, in their order.
pub fn select_profiles(profiles: Vec<ConfiguredProfile>, device_id: Option<&str>, device_name: Option<&str>) -> (r: Vec<ConfiguredProfile>)
    ensures
        r@ == selected_profiles(profiles@, str_view(device_id), str_view(device_name)),
{
    let mut kept: Vec<ConfiguredProfile> = Vec::new();
    let mut rest = profiles;
    let total: usize = rest.len();
    let ghost all = rest@;
    assert(all.len() == total);
    let mut i: usize = 0;
    while rest.len() > 0
        invariant
            i + rest@.len() == all.len(),
            rest@ == all.subrange(i as int, all.len() as int),
            all.len() <= usize::MAX,
            kept@ == selected_profiles(all.take(i as int), str_view(device_id), str_view(device_name)),
        decreases rest@.len(),
    {
        let profile = rest.remove(0);
        proof {
            assert(all.take(i + 1).drop_last() =~= all.take(i as int));
            assert(all[i as int] == profile);
            reveal(Seq::filter);
        }
        if is_profile_selected(&profile, device_id, device_name) {
            kept.push(profile);
        }
        i = i + 1;
    }
    assert(all.take(all.len() as int) =~= all);
    kept
}

/// How a saved profile's Device could not be reached.
#[derive(Clone, Copy, Debug, PartialEq, Eq)]
pub enum ProbeFailure {
    /// The daemon behind the profile could not be connected to.
    Connect,
    /// The paired daemon could not be connected to with the credential.
    PairedConnect,
    /// The paired daemon refused the Device request with this status.
    RemoteStatus(RemoteCode),
    /// The profile itself is unusable.
    Profile,
    /// The profile's endpoint disagrees with the Device it names.
    ProfileEndpointMismatch,
    /// The daemon no longer lists the Device the profile names.
    CanonicalDeviceMissing,
    /// Anything else.
    Other,
}

/// The status codes a paired daemon's refusal is told apart by.
#[derive(Clone, Copy, Debug, PartialEq, Eq)]
pub enum RemoteCode {
    Unauthenticated,
    PermissionDenied,
    Unavailable,
    DeadlineExceeded,
    Cancelled,
    Other,
}

pub open spec fn probe_status_text(failure: ProbeFailure) -> Seq<char> {
    match failure {
        ProbeFailure::Connect | ProbeFailure::PairedConnect => "offline"@,
        ProbeFailure::RemoteStatus(code) => match code {
            RemoteCode::Unauthenticated | RemoteCode::PermissionDenied => "unauthorized"@,
            RemoteCode::Unavailable | RemoteCode::DeadlineExceeded | RemoteCode::Cancelled => "offline"@,
            RemoteCode::Other => "error"@,
        },
        ProbeFailure::Profile | ProbeFailure::ProfileEndpointMismatch | ProbeFailure::CanonicalDeviceMissing => "invalid"@,
        ProbeFailure::Other => "error"@,
    }
}

/// The status a saved profile is listed with when its probe failed.
pub fn probe_status(failure: ProbeFailure) -> (r: String)
    ensures
        r@ == probe_status_text(failure),
{
    match failure {
        ProbeFailure::Connect | ProbeFailure::PairedConnect => owned("offline"),
        ProbeFailure::RemoteStatus(code) => match code {
            RemoteCode::Unauthenticated | RemoteCode::PermissionDenied => owned("unauthorized"),
            RemoteCode::Unavailable | RemoteCode::DeadlineExceeded | RemoteCode::Cancelled => owned("offline"),
            RemoteCode::Other => owned("error"),
        },
        ProbeFailure::Profile | ProbeFailure::ProfileEndpointMismatch | ProbeFailure::CanonicalDeviceMissing => owned("invalid"),
        ProbeFailure::Other => owned("error"),
    }
}

/// One row of the Device list: a daemon Device or a saved profile, by its
/// position in its own list.
#[derive(Clone, Copy, Debug, PartialEq, Eq)]
pub enum ListingRow {
    Daemon(usize),
    Configured(usize),
}

/// Whether a Device carries exactly this id.
pub open spec fn has_id(device: DeviceSummary, device_id: Seq<char>) -> bool {
    device.device_id matches Some(d) && d@ == device_id
}

/// Whether the daemon already lists the Device a profile names.
pub open spec fn listed_by_daemon(devices: Seq<DeviceSummary>, device_id: Seq<char>) -> bool {
    exists|i: int| 0 <= i < devices.len() && #[trigger] has_id(devices[i], device_id)
}

/// The configured rows: each profile the daemon does not already list.
pub open spec fn configured_rows(devices: Seq<DeviceSummary>, profiles: Seq<ConfiguredProfile>) -> Seq<ListingRow>
    decreases profiles.len(),
{
    if profiles.len() == 0 {
        Seq::empty()
    } else {
        let before = configured_rows(devices, profiles.drop_last());
        if listed_by_daemon(devices, profiles.last().device_id@) {
            before
        } else {
            before.push(ListingRow::Configured((profiles.len() - 1) as usize))
        }
    }
}

/// The rows of the Device list: every daemon Device, then every profile
/// whose Device the daemon does not list.
pub open spec fn listing_rows(devices: Seq<DeviceSummary>, profiles: Seq<ConfiguredProfile>) -> Seq<ListingRow> {
    Seq::new(devices.len(), |i: int| ListingRow::Daemon(i as usize)) + configured_rows(devices, profiles)
}

fn daemon_lists(devices: &Vec<DeviceSummary>, device_id: &str) -> (r: bool)
    ensures
        r == listed_by_daemon(devices@, device_id@),
{
    let mut i: usize = 0;
    while i < devices.len()
        invariant
            i <= devices@.len(),
            forall|k: int| 0 <= k < i ==> !has_id(#[trigger] devices@[k], device_id@),
        decreases devices@.len() - i,
    {
        match &devices[i].device_id {
            Some(d) => if text_eq(d.as_str(), device_id) {
                assert(has_id(devices@[i as int], device_id@));
                return true;
            },
            None => {},
        }
        i = i + 1;
    }
    false
}

/// The rows of `auv devices list` for the selected daemon Devices and the
/// selected, probed profiles.
pub fn device_listing(devices: &Vec<DeviceSummary>, profiles: &Vec<ConfiguredProfile>) -> (rows: Vec<ListingRow>)
    ensures
        rows@ == listing_rows(devices@, profiles@),
{
    let mut rows: Vec<ListingRow> = Vec::new();
    let mut i: usize = 0;
    while i < devices.len()
        invariant
            i <= devices@.len(),
            rows@ == Seq::new(i as nat, |k: int| ListingRow::Daemon(k as usize)),
        decreases devices@.len() - i,
    {
        rows.push(ListingRow::Daemon(i));
        assert(rows@ =~= Seq::new((i + 1) as nat, |k: int| ListingRow::Daemon(k as usize)));
        i = i + 1;
    }
    let ghost daemon_rows = rows@;
    let mut j: usize = 0;
    while j < profiles.len()
        invariant
            j <= profiles@.len(),
            i == devices@.len(),
            daemon_rows == Seq::new(devices@.len(), |k: int| ListingRow::Daemon(k as usize)),
            rows@ == daemon_rows + configured_rows(devices@, profiles@.take(j as int)),
        decreases profiles@.len() - j,
    {
        proof {
            assert(profiles@.take(j + 1).drop_last() =~= profiles@.take(j as int));
            assert(profiles@.take(j + 1).last() == profiles@[j as int]);
        }
        if !daemon_lists(devices, profiles[j].device_id.as_str()) {
            rows.push(ListingRow::Configured(j));
            assert(rows@ =~= daemon_rows + configured_rows(devices@, profiles@.take(j + 1)));
        } else {
            assert(rows@ =~= daemon_rows + configured_rows(devices@, profiles@.take(j + 1)));
        }
        j = j + 1;
    }
    assert(profiles@.take(profiles@.len() as int) =~= profiles@);
    rows
}

/// A profile is shown only when the daemon did not list its Device, and
/// each profile at most once, in profile order: no Device appears twice
/// through the daemon and a saved profile.
pub proof fn lemma_profiles_listed_once(devices: Seq<DeviceSummary>, profiles: Seq<ConfiguredProfile>)
    requires
        profiles.len() <= usize::MAX,
    ensures
        forall|k: int| 0 <= k < configured_rows(devices, profiles).len() ==> {
            &&& #[trigger] configured_rows(devices, profiles)[k] matches ListingRow::Configured(j)
            &&& j < profiles.len()
            &&& !listed_by_daemon(devices, profiles[j as int].device_id@)
        },
        forall|k: int, l: int| 0 <= k < l < configured_rows(devices, profiles).len() ==> (
            #[trigger] configured_rows(devices, profiles)[k])->Configured_0 < (
            #[trigger] configured_rows(devices, profiles)[l])->Configured_0,
    decreases profiles.len(),
{
    if profiles.len() > 0 {
        let rest = profiles.drop_last();
        lemma_profiles_listed_once(devices, rest);
        let before = configured_rows(devices, rest);
        let after = configured_rows(devices, profiles);
        let n = profiles.len() - 1;
        assert forall|k: int| 0 <= k < after.len() implies {
            &&& #[trigger] after[k] matches ListingRow::Configured(j)
            &&& j < profiles.len()
            &&& !listed_by_daemon(devices, profiles[j as int].device_id@)
        } by {
            if k < before.len() {
                assert(after[k] == before[k]);
                let j = before[k]->Configured_0;
                assert(profiles[j as int] == rest[j as int]);
            } else {
                assert(after[k] == ListingRow::Configured(n as usize));
                assert(profiles[n] == profiles.last());
            }
        }
        assert forall|k: int, l: int| 0 <= k < l < after.len() implies (#[trigger] after[k])->Configured_0 < (
        #[trigger] after[l])->Configured_0 by {
            assert(after[k] == before[k]);
            if l < before.len() {
                assert(after[l] == before[l]);
            } else {
                assert(after[l] == ListingRow::Configured(n as usize));
            }
        }
    }
}

/// A probe is listed "unauthorized" exactly when the paired daemon refused
/// the credential or the permission, "offline" exactly when the daemon could
/// not be reached (a failed connection, or an unavailable, timed-out or
/// cancelled request), and "invalid" exactly when the profile itself is at
/// fault; anything else is an "error".
pub proof fn lemma_probe_status_names_the_failure(failure: ProbeFailure)
    ensures
        probe_status_text(failure) == "unauthorized"@ <==> (failure == ProbeFailure::RemoteStatus(RemoteCode::Unauthenticated)
            || failure == ProbeFailure::RemoteStatus(RemoteCode::PermissionDenied)),
        probe_status_text(failure) == "offline"@ <==> (failure == ProbeFailure::Connect || failure == ProbeFailure::PairedConnect
            || failure == ProbeFailure::RemoteStatus(RemoteCode::Unavailable) || failure == ProbeFailure::RemoteStatus(
            RemoteCode::DeadlineExceeded,
        ) || failure == ProbeFailure::RemoteStatus(RemoteCode::Cancelled)),
        probe_status_text(failure) == "invalid"@ <==> (failure == ProbeFailure::Profile || failure
            == ProbeFailure::ProfileEndpointMismatch || failure == ProbeFailure::CanonicalDeviceMissing),
        probe_status_text(failure) == "error"@ <==> (failure == ProbeFailure::Other || failure == ProbeFailure::RemoteStatus(
            RemoteCode::Other,
        )),
{
    reveal_strlit("unauthorized");
    reveal_strlit("offline");
    reveal_strlit("invalid");
    reveal_strlit("error");
    assert("unauthorized"@.len() == 12 && "offline"@.len() == 7 && "invalid"@.len() == 7 && "error"@.len() == 5);
    assert("offline"@ != "invalid"@) by {
        assert("offline"@[0] != "invalid"@[0]);
    }
}

} // verus!
