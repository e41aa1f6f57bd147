//! Zsozso wallet: the verified core of the wallet's user interface.

pub mod language;
pub mod text;
pub mod i18n;
pub mod status;
pub mod tabs;
pub mod state;
pub mod actions;
pub mod controller;
pub mod horizon;
pub mod flows;
pub mod graph;
pub mod views;
pub mod browser;
