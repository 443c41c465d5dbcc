//! Runs one SQL statement against a data source and prints what comes back.
//!
//! The library holds every decision of such a run and none of its calls:
//! which request goes to the database driver next, what each reply means,
//! what is printed for it, and how a failure is reported. The program around
//! it performs the requests and hands the replies back.
//!
//! - [`settings`]: what a run is told from outside.
//! - [`protocol`]: the requests a run makes and the replies it takes.
//! - [`session`]: the run as a state machine, one reply at a time.
//! - [`conversation`]: whole runs over a list of replies, and what holds of
//!   them.
//! - [`render`]: the text that cells, rows and notices are printed as.
//! - [`failure`]: how a failed run is reported.

pub mod conversation;
pub mod failure;
pub mod protocol;
pub mod render;
pub mod session;
pub mod settings;

pub use conversation::replay;
pub use failure::{Failure, Stage};
pub use protocol::{Reply, Request};
pub use render::{render_cell, render_no_data, render_row, render_rows};
pub use session::{Phase, Session};
pub use settings::Settings;
