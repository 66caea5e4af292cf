//! Built-in views of a declarative GUI toolkit, with their construction rules,
//! interaction state machines and layout decisions stated and proved.

pub mod ui;
pub mod popup;
pub mod sorted;
pub mod list;
pub mod breadcrumb;
pub mod calendar;
pub mod layout;
pub mod label;
pub mod group;
pub mod press;
pub mod button;
pub mod toggle;
pub mod radio;
pub mod radio_buttons;
pub mod badge;
pub mod chip;
pub mod avatar;
pub mod collapsible;
pub mod accordion;
pub mod rating;
pub mod notification;
pub mod dropdown;
pub mod select;
pub mod picklist;
pub mod text;
pub mod combobox;
pub mod tree;
pub mod menu;
pub mod tab;
pub mod tabview;
pub mod resizable_stack;
pub mod table;
pub mod number_input;
pub mod spinbox;
pub mod scroll;
pub mod textbox;
pub mod timepicker;
pub mod media;
pub mod mouse_popup;
pub mod colorpicker;
pub mod keybind;
pub mod sidebar;
pub mod reorderable;
pub mod inspector;
pub mod datepicker;
pub mod markdown;
pub mod weekday_names;
pub mod calendar_view;
pub mod knob;
pub mod textbox_event;
