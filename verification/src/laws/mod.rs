//! Laws that relate several functions of the library.
//!
//! Some are of states and texts, over the functions that contracts speak of. Others are of calls:
//! there `call_ensures` says that a call with these arguments gave this result, and a parameter
//! that is a mutable reference stands for one call, with the value before it in `old` and the
//! value after it in `final`.

pub mod action;
pub mod button;
pub mod button_loop;
pub mod cli;
pub mod env_file;
pub mod env_map;
pub mod gpio_cdev;
pub mod history;
pub mod number;
pub mod text;
