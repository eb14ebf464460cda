//! Reactive control core of a small clock/menu device: a debounce filter for
//! mechanical buttons, a router from debounced edges to UI messages, two small
//! finite state machines for the screens, a pure description of what each
//! screen draws, and a fixed-priority scheduler model that shares one output
//! line across tasks through a priority-ceiling discipline.

pub mod buttons;
pub mod menu;
pub mod render;
pub mod router;
pub mod sched;
pub mod ui;
