//! Verified core of the AWD / AWD-Plus attack-defence competition engine:
//! address planning, firewall rule rendering, phase state machines,
//! round timing, scoring keys, flag derivation and judge lease bookkeeping.

pub mod text;
pub mod digest;
pub mod cidr;
pub mod error;
pub mod awd_network;
pub mod awd_event;
pub mod firewall;
pub mod lines;
pub mod awdp_phase;
pub mod awdp_timing;
pub mod awdp_config;
pub mod awdp_ident;
pub mod awdp_subnet;
pub mod awdp_lease;
pub mod precheck;
pub mod judge;
pub mod deploy;
pub mod wireguard;
pub mod gamebox;
pub mod judge_auth;
pub mod reset;
pub mod submission;
pub mod round;
pub mod command;
pub mod practice_judge;
pub mod event_network;
pub mod awdp_training;
pub mod awdp_run;
pub mod awdp_rounds;
pub mod precheck_probe;
pub mod precheck_run;
pub mod recovery;
pub mod awdp_store;
pub mod awdp_access;
