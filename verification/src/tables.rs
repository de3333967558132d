//! The table rows the frontend prints for Devices, profiles, Runner
//! classes, Runs and Runners: short ids, short enum names, and a marker
//! where the daemon left a reference out.

use vstd::prelude::*;
use crate::devices::{ConfiguredProfile, DeviceSummary};
use crate::ids::{id_matches, id_matches_spec, short_enum_name, short_enum_text, short_id, short_text};
use crate::text::{joined, owned, text_eq};

verus! {

pub open spec fn missing_text() -> Seq<char> {
    "<missing>"@
}

/// The short form of a reference, or the missing marker.
pub open spec fn short_or_missing_text(id: Option<String>) -> Seq<char> {
    match id {
        Some(v) => short_text(v@),
        None => missing_text(),
    }
}

fn short_or_missing(id: &Option<String>) -> (r: String)
    ensures
        r@ == short_or_missing_text(*id),
{
    match id {
        Some(v) => short_id(v.as_str()),
        None => owned("<missing>"),
    }
}

pub open spec fn option_text(value: Option<String>) -> Option<Seq<char>> {
    match value {
        Some(v) => Some(v@),
        None => None,
    }
}

pub open spec fn short_option_text(id: Option<String>) -> Option<Seq<char>> {
    match id {
        Some(v) => Some(short_text(v@)),
        None => None,
    }
}

fn short_option(id: &Option<String>) -> (r: Option<String>)
    ensures
        option_text(r) == short_option_text(*id),
{
    match id {
        Some(v) => Some(short_id(v.as_str())),
        None => None,
    }
}

/// A row of the Device table.
#[derive(Clone, Debug, PartialEq, Eq)]
pub struct DeviceTableRow {
    pub device_id: String,
    pub name: Option<String>,
    pub platform: Option<String>,
    pub local: bool,
    pub status: String,
    pub profile: Option<String>,
}

pub open spec fn non_empty_text(value: Seq<char>) -> Option<Seq<char>> {
    if value.len() == 0 {
        None
    } else {
        Some(value)
    }
}

/// The row of a Device the daemon lists, with its status.
pub fn device_table_row(device: &DeviceSummary, status: &str) -> (row: DeviceTableRow)
    ensures
        row.device_id@ == short_or_missing_text(device.device_id),
        option_text(row.name) == non_empty_text(device.name@),
        option_text(row.platform) == Some(short_enum_text(device.platform@, "DEVICE_PLATFORM_"@)),
        row.local == device.local,
        row.status@ == status@,
        row.profile is None,
{
    DeviceTableRow {
        device_id: short_or_missing(&device.device_id),
        name: if device.name.unicode_len() == 0 { None } else { Some(device.name.clone()) },
        platform: Some(short_enum_name(device.platform.as_str(), "DEVICE_PLATFORM_")),
        local: device.local,
        status: owned(status),
        profile: None,
    }
}

/// The row of a saved profile and its probe: the remote Device's name and
/// platform where the probe reached it, else the profile's own name.
pub fn configured_device_table_row(profile: &ConfiguredProfile, status: &str, remote: &Option<DeviceSummary>) -> (row: DeviceTableRow)
    ensures
        row.device_id@ == short_text(profile.device_id@),
        option_text(row.name) == (match remote {
            Some(device) if device.name@.len() > 0 => Some(device.name@),
            _ => non_empty_text(profile.device_name@),
        }),
        option_text(row.platform) == (match remote {
            Some(device) => Some(short_enum_text(device.platform@, "DEVICE_PLATFORM_"@)),
            None => None,
        }),
        !row.local,
        row.status@ == status@,
        option_text(row.profile) == Some(profile.config_profile@),
{
    let platform = match remote {
        Some(device) => Some(short_enum_name(device.platform.as_str(), "DEVICE_PLATFORM_")),
        None => None,
    };
    let remote_name = match remote {
        Some(device) => if device.name.unicode_len() == 0 { None } else { Some(device.name.clone()) },
        None => None,
    };
    let name = match remote_name {
        Some(n) => Some(n),
        None => if profile.device_name.unicode_len() == 0 { None } else { Some(profile.device_name.clone()) },
    };
    DeviceTableRow {
        device_id: short_id(profile.device_id.as_str()),
        name,
        platform,
        local: false,
        status: owned(status),
        profile: Some(profile.config_profile.clone()),
    }
}

/// A row of the profile table.
#[derive(Clone, Debug, PartialEq, Eq)]
pub struct DeviceProfileTableRow {
    pub config_profile: String,
    pub device_id: String,
    pub name: String,
    pub endpoint: String,
}

pub fn device_profile_table_row(profile: &ConfiguredProfile) -> (row: DeviceProfileTableRow)
    ensures
        row.config_profile@ == profile.config_profile@,
        row.device_id@ == short_text(profile.device_id@),
        row.name@ == profile.device_name@,
        row.endpoint@ == profile.endpoint@,
{
    DeviceProfileTableRow {
        config_profile: profile.config_profile.clone(),
        device_id: short_id(profile.device_id.as_str()),
        name: profile.device_name.clone(),
        endpoint: profile.endpoint.clone(),
    }
}

/// A Runner class as the daemon describes it; lifecycles by enum name.
#[derive(Clone, Debug, PartialEq, Eq)]
pub struct RunnerClassSummary {
    pub runner_class: Option<String>,
    pub display_name: String,
    pub available: bool,
    pub device_id: Option<String>,
    pub supported_lifecycles: Vec<String>,
}

#[derive(Clone, Debug, PartialEq, Eq)]
pub struct RunnerClassTableRow {
    pub runner_class: String,
    pub name: String,
    pub available: bool,
    pub device_id: Option<String>,
    pub lifecycles: String,
}

pub open spec fn lifecycle_names(names: Seq<String>) -> Seq<Seq<char>> {
    names.map_values(|n: String| short_enum_text(n@, "RUNNER_LIFECYCLE_"@))
}

pub fn runner_class_table_row(class: &RunnerClassSummary) -> (row: RunnerClassTableRow)
    ensures
        row.runner_class@ == (match class.runner_class {
            Some(c) => c@,
            None => missing_text(),
        }),
        row.name@ == class.display_name@,
        row.available == class.available,
        option_text(row.device_id) == short_option_text(class.device_id),
        row.lifecycles@ == joined(lifecycle_names(class.supported_lifecycles@), ","@),
{
    let mut names: Vec<String> = Vec::new();
    let mut i: usize = 0;
    while i < class.supported_lifecycles.len()
        invariant
            i <= class.supported_lifecycles@.len(),
            names@.len() == i,
            forall|k: int| 0 <= k < i ==> (#[trigger] names@[k])@ == lifecycle_names(class.supported_lifecycles@)[k],
        decreases class.supported_lifecycles@.len() - i,
    {
        names.push(short_enum_name(class.supported_lifecycles[i].as_str(), "RUNNER_LIFECYCLE_"));
        i = i + 1;
    }
    let lifecycles = crate::text::join(&names, ",");
    proof {
        assert(crate::ids::views(names@) =~= lifecycle_names(class.supported_lifecycles@));
    }
    RunnerClassTableRow {
        runner_class: match &class.runner_class {
            Some(c) => c.clone(),
            None => owned("<missing>"),
        },
        name: class.display_name.clone(),
        available: class.available,
        device_id: short_option(&class.device_id),
        lifecycles,
    }
}

/// A Run as the daemon describes it; its phase by enum name.
#[derive(Clone, Debug, PartialEq, Eq)]
pub struct RunSummary {
    pub run_id: Option<String>,
    pub phase: String,
    pub device_ids: Vec<String>,
}

#[derive(Clone, Debug, PartialEq, Eq)]
pub struct RunTableRow {
    pub run_id: String,
    pub phase: String,
    pub device_ids: String,
}

pub open spec fn short_ids(ids: Seq<String>) -> Seq<Seq<char>> {
    ids.map_values(|id: String| short_text(id@))
}

pub fn run_table_row(run: &RunSummary) -> (row: RunTableRow)
    ensures
        row.run_id@ == short_or_missing_text(run.run_id),
        row.phase@ == short_enum_text(run.phase@, "RUN_PHASE_"@),
        row.device_ids@ == joined(short_ids(run.device_ids@), ","@),
{
    let mut ids: Vec<String> = Vec::new();
    let mut i: usize = 0;
    while i < run.device_ids.len()
        invariant
            i <= run.device_ids@.len(),
            ids@.len() == i,
            forall|k: int| 0 <= k < i ==> (#[trigger] ids@[k])@ == short_ids(run.device_ids@)[k],
        decreases run.device_ids@.len() - i,
    {
        ids.push(short_id(run.device_ids[i].as_str()));
        i = i + 1;
    }
    let device_ids = crate::text::join(&ids, ",");
    proof {
        assert(crate::ids::views(ids@) =~= short_ids(run.device_ids@));
    }
    RunTableRow {
        run_id: short_or_missing(&run.run_id),
        phase: short_enum_name(run.phase.as_str(), "RUN_PHASE_"),
        device_ids,
    }
}

/// Whether a Run answers the selection of `auv run list`: attached to the
/// selected Device, and its id matched by the selected Run.
pub open spec fn run_selected(run: RunSummary, device_id: Option<Seq<char>>, run_id: Option<Seq<char>>) -> bool {
    &&& match device_id {
        Some(d) => exists|k: int| 0 <= k < run.device_ids@.len() && #[trigger] run.device_ids@[k]@ == d,
        None => true,
    }
    &&& match run_id {
        Some(r) => run.run_id matches Some(id) && id_matches_spec(id@, r),
        None => true,
    }
}

pub open spec fn selected_runs(runs: Seq<RunSummary>, device_id: Option<Seq<char>>, run_id: Option<Seq<char>>) -> Seq<RunSummary> {
    runs.filter(|r: RunSummary| run_selected(r, device_id, run_id))
}

fn attached_to(run: &RunSummary, device_id: &str) -> (r: bool)
    ensures
        r == exists|k: int| 0 <= k < run.device_ids@.len() && #[trigger] run.device_ids@[k]@ == device_id@,
{
    let mut i: usize = 0;
    while i < run.device_ids.len()
        invariant
            i <= run.device_ids@.len(),
            forall|k: int| 0 <= k < i ==> (#[trigger] run.device_ids@[k])@ != device_id@,
        decreases run.device_ids@.len() - i,
    {
        if text_eq(run.device_ids[i].as_str(), device_id) {
            return true;
        }
        i = i + 1;
    }
    false
}

fn is_run_selected(run: &RunSummary, device_id: Option<&str>, run_id: Option<&str>) -> (r: bool)
    ensures
        r == run_selected(*run, crate::listing::str_view(device_id), crate::listing::str_view(run_id)),
{
    let device_ok = match device_id {
        Some(d) => attached_to(run, d),
        None => true,
    };
    let run_ok = match run_id {
        Some(selector) => match &run.run_id {
            Some(id) => id_matches(id.as_str(), selector),
            None => false,
        },
        None => true,
    };
    device_ok && run_ok
}

/// The Runs `auv run list` shows, in the daemon's order.
pub fn select_runs(runs: Vec<RunSummary>, device_id: Option<&str>, run_id: Option<&str>) -> (r: Vec<RunSummary>)
    ensures
        r@ == selected_runs(runs@, crate::listing::str_view(device_id), crate::listing::str_view(run_id)),
{
    let mut kept: Vec<RunSummary> = Vec::new();
    let mut rest = runs;
    let total: usize = rest.len();
    let ghost all = rest@;
    assert(all.len() == total);
    let mut i: usize = 0;
    while rest.len() > 0
        invariant
            i + rest@.len() == all.len(),
            rest@ == all.subrange(i as int, all.len() as int),
            all.len() <= usize::MAX,
            kept@ == selected_runs(all.take(i as int), crate::listing::str_view(device_id), crate::listing::str_view(run_id)),
        decreases rest@.len(),
    {
        let run = rest.remove(0);
        proof {
            assert(all.take(i + 1).drop_last() =~= all.take(i as int));
            assert(all[i as int] == run);
            reveal(Seq::filter);
        }
        if is_run_selected(&run, device_id, run_id) {
            kept.push(run);
        }
        i = i + 1;
    }
    assert(all.take(all.len() as int) =~= all);
    kept
}

/// A Runner as the daemon describes it; phase and lifecycle by enum name.
#[derive(Clone, Debug, PartialEq, Eq)]
pub struct RunnerSummary {
    pub runner_id: Option<String>,
    pub runner_class: Option<String>,
    pub phase: String,
    pub process_id: u32,
    pub device_id: Option<String>,
    pub lifecycle: String,
    pub active_operations: u64,
}

#[derive(Clone, Debug, PartialEq, Eq)]
pub struct RunnerTableRow {
    pub runner_id: String,
    pub class: String,
    pub phase: String,
    pub pid: Option<u32>,
    pub device_id: Option<String>,
    pub lifecycle: String,
    pub active_operations: u64,
}

pub fn runner_table_row(runner: &RunnerSummary) -> (row: RunnerTableRow)
    ensures
        row.runner_id@ == short_or_missing_text(runner.runner_id),
        row.class@ == (match runner.runner_class {
            Some(c) => c@,
            None => missing_text(),
        }),
        row.phase@ == short_enum_text(runner.phase@, "RUNNER_PHASE_"@),
        row.pid == (if runner.process_id != 0 { Some(runner.process_id) } else { None::<u32> }),
        option_text(row.device_id) == short_option_text(runner.device_id),
        row.lifecycle@ == short_enum_text(runner.lifecycle@, "RUNNER_LIFECYCLE_"@),
        row.active_operations == runner.active_operations,
{
    RunnerTableRow {
        runner_id: short_or_missing(&runner.runner_id),
        class: match &runner.runner_class {
            Some(c) => c.clone(),
            None => owned("<missing>"),
        },
        phase: short_enum_name(runner.phase.as_str(), "RUNNER_PHASE_"),
        pid: if runner.process_id != 0 { Some(runner.process_id) } else { None },
        device_id: short_option(&runner.device_id),
        lifecycle: short_enum_name(runner.lifecycle.as_str(), "RUNNER_LIFECYCLE_"),
        active_operations: runner.active_operations,
    }
}

} // verus!
