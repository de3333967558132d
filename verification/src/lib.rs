//! Verified core of the AUV command frontends: the root command tree and
//! what each command line runs, typed invoke-input decoding and routing,
//! overlay presentation policies, registry-backed invoke parsing over a
//! model of clap, Runner input action results, Device,
//! Run and Runner selection and listing, pairing checks, identities, and
//! discovery of external `auv-*` plugins.

pub mod apps;
pub mod args;
pub mod clap_model;
pub mod cli;
pub mod click;
pub mod color;
pub mod devices;
pub mod frontend;
pub mod identity;
pub mod ids;
pub mod input_action;
pub mod inputs;
pub mod invoke;
pub mod listing;
pub mod media;
pub mod overlay;
pub mod pairing;
pub mod parse;
pub mod plugin;
pub mod registry_cli;
pub mod routing;
pub mod runner_plan;
pub mod tables;
pub mod text;
