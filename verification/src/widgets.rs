//! The widgets: what each reads from its Thing, how it reacts to input, and
//! the paint operations its drawing is made of.

pub mod plain_text;
pub mod status_widget;
pub mod top_status_bar;
pub mod thing_inspector;
pub mod graph_mini_viewer;
pub mod launcher_entry;
pub mod notification_toast;
pub mod radio_button;
pub mod button;
pub mod image;
pub mod dropdown;
pub mod listbox;
pub mod scrollbar_thumb;
