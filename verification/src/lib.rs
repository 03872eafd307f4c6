use vstd::prelude::*;

pub mod text;
pub mod templates;
pub mod config;
pub mod docs;
pub mod ui;
pub mod theme;
pub mod app;
pub mod input;
pub mod events;
pub mod actions;
pub mod deploy;
pub mod rollout;
pub mod maintenance;
pub mod view;
pub mod projects;

verus! {

} // verus!
