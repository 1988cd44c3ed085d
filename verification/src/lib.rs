//! Station, timer, news-window and LCD logic of a push-button internet radio.

pub mod text;
pub mod playlist;
pub mod persist;
pub mod news;
pub mod station;
pub mod timer;
pub mod radio;
pub mod display;
pub mod lcd;
