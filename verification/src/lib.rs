//! The logic of a menu-bar salary ticker: the settings it keeps, the
//! clock-time text format they are stored in, the display language, and the
//! decision of how much of the working day has been earned at a given time.
pub mod clock;
pub mod i18n;
pub mod language;
pub mod serde_time;
pub mod settings;
pub mod tray;
