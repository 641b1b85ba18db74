//! Interactions: message components, application command definitions,
//! context-menu commands and autocomplete answers.

pub mod autocomplete;
pub mod command;
pub mod components;
pub mod context_menu;
