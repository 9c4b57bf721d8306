//! Normalizes raw keyboard and pointer input into tagged device events, and
//! decides each step of the background listener that reads them.
pub mod event;
pub mod handle;
pub mod label;
pub mod listener;

pub use event::{build_device_event, DeviceEvent, DeviceEventKind, DeviceValue, PressState, RawEvent};
pub use handle::{Interface, OpenOptions};
pub use listener::{step, Action, PollOutcome, Signal, StartError};
