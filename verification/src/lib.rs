//! Renaming of VRChat log files into a timestamped naming scheme.

pub mod arrange;
pub mod calendar;
pub mod conduct;
pub mod config;
pub mod document;
pub mod field;
pub mod form;
pub mod i18n;
pub mod license;
pub mod matcher;
pub mod names;
pub mod parse;
pub mod pass;
pub mod relocate;
pub mod render;
pub mod roundtrip;
pub mod settings;
pub mod split;
pub mod template;
pub mod text;
pub mod timestamp;
