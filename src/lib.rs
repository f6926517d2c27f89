//! Batch tracking for fermentations: the interactive form and navigation core.

pub mod decimal;
pub mod input_field;
pub mod models;
pub mod text;
pub mod main_menu;
pub mod mead_list;
pub mod new_mead;
pub mod mead_detail;
pub mod app;
