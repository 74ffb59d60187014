//! Debounced scanning of a switch matrix wired as rows and columns.
//!
//! Columns are strobed one at a time, every row is sampled while a column is
//! energised, and each sample is fed to a small saturating integrator that
//! decides when a switch has settled.

pub mod cols;
pub mod error;
pub mod key;
pub mod keyboard;
pub mod keycode;
pub mod matrix;
pub mod pins;
pub mod rows;
pub mod state;
pub mod step;
