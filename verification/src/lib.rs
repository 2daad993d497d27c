//! Verified core of the training modpack: the menu's option flags and what
//! they mean, frame counters, the decisions the CPU makes each frame (mashing,
//! shielding, teching, ledge options, throws, clatter, SDI, fast falls), the
//! input recorder, the save state machine, notifications, the frame advantage
//! tracker, input delay and logging helpers, the updater configuration's date
//! formatting and the usage metrics' date filter.
#![allow(non_snake_case)]

use vstd::prelude::*;

pub mod attack_angle;
pub mod clatter;
pub mod combo;
pub mod crouch;
pub mod config;
pub mod fast_fall;
pub mod flags;
pub mod frame_counter;
pub mod input_delay;
pub mod input_log;
pub mod input_record;
pub mod ledge;
pub mod mash;
pub mod menu;
pub mod metrics;
pub mod option_values;
pub mod notifications;
pub mod options;
pub mod reset;
pub mod resources;
pub mod save_states;
pub mod sdi;
pub mod shield;
pub mod tech;
pub mod text;
pub mod throw;
pub mod ui;

verus! {

} // verus!
