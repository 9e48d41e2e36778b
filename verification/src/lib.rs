//! A small family of interactive form widgets that a host process can mount,
//! drive with externally supplied values, and observe for user-caused changes
//! through one uniform lifecycle: `attach`, `update`, `get`, `subscribe`.
//!
//! The core is the reactive state/notification bridge shared by every widget
//! variant ([`store::Store`]): it merges host-issued updates and user-issued
//! interactions into one canonical value and reports each completed transition
//! to the host's observers, without duplicate deliveries and without a
//! spurious delivery for the value present at subscription time. Each variant
//! layers its own validation policy over that bridge; rendering and the
//! JavaScript boundary live outside this crate.

pub mod shiny_leptos_checkbox_group_buttons;
pub mod shiny_leptos_color_picker_input;
pub mod shiny_leptos_counter_input;
pub mod shiny_leptos_dynamic_items_input;
pub mod shiny_leptos_text_input;
pub mod store;
