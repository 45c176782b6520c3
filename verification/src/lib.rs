//! Verified core of the fadb desktop toolbox: the interface texts, the
//! logcat line model, the terminal input encoder, the panel state machines,
//! the app-wide state driven by backend events, and the update check.
use vstd::prelude::*;

pub mod strings;
pub mod catalog_zh;
pub mod catalog_en;
pub mod domain;
pub mod i18n;
pub mod logline;
pub mod clock;
pub mod logcat;
pub mod terminal;
pub mod screen;
pub mod shell;
pub mod assistant;
pub mod update;
pub mod desktop;
pub mod screenshot;
pub mod output_batch;
pub mod session;
pub mod backend;
pub mod files;
