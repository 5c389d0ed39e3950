//! Sound board for a panel of image buttons.
//!
//! Each button of the panel shows a composed image and, on a press, toggles
//! a sound or a playlist and may send a message to a broker. This library
//! holds the rules: how a nested configuration maps onto the grid of a panel
//! variant (`geometry`), how a button's base image and its play/stop overlay
//! are made (`picture`, `label`), which files a playlist names (`playlist`),
//! how the button table is built (`button`), and what a press or a poll asks
//! for (`playback`). It touches no device, no audio output and no broker:
//! the caller reads files, carries out what the library asks for, and
//! reports back.

pub mod button;
pub mod geometry;
pub mod label;
pub mod picture;
pub mod playback;
pub mod playlist;
pub mod settings;
