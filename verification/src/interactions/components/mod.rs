//! Message components: v1 (buttons, select menus, text inputs) and v2
//! (layout primitives).

pub mod v1;
pub mod v2;
