//! Button input pipeline for a bus-attached push-button node: the wire codec of
//! button events, the registry of interrupt-driven input lines with their
//! bounded event queues, and the per-button debounce and click state machine.
pub mod button;
pub mod button_message;
pub mod device_type;
pub mod echo_guard;
pub mod event_queue;
pub mod extension;
pub mod gpio_interrupt;
pub mod relais;
pub mod update;
