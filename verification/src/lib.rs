//! Verified logic of a daemon for a HAT board: button gestures, pin maps, command line
//! arguments and GPIO character device requests.

pub mod action;
pub mod button;
pub mod button_loop;
pub mod cli;
pub mod config;
pub mod env_file;
pub mod env_map;
pub mod gpio_cdev;
pub mod laws;
pub mod number;
pub mod text;
