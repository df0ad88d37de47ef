//! FlipIt flip-clock screensaver: the settings store, INI reading and
//! writing, time-zone tables, clock formatting and the decisions of the
//! screensaver and settings windows.

pub mod display_type;
pub mod text;
pub mod number;
pub mod assoc;
pub mod ini_file;
pub mod ini_laws;
pub mod location;
pub mod clock;
pub mod time_zones;
pub mod timezone_data;
pub mod settings;
pub mod colors;
pub mod settings_dialog;
pub mod screensaver;
pub mod launch;
