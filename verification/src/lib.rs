//! Screen state machine and background task model for a terminal dashboard
//! of hardware diagnostic categories.
//!
//! The library owns every decision the dashboard makes: which screen is
//! showing, how selection lists are navigated, how a long-running external
//! check is tracked while it runs, and how the user cancels or returns from
//! any state.  The surrounding binary only performs the external calls and
//! the drawing; it hands plain values in and takes plain values back.

pub mod nav;
pub mod task;
pub mod controller;
pub mod screen;
pub mod text;

pub mod amd_gpu;
pub mod audio_test;
pub mod gamepad_test;
pub mod gpu_detect;
pub mod gpu_test;
pub mod keyboard_test;
pub mod menu;
pub mod nvidia_drivers;
pub mod photo_exporter;
pub mod smart;
