//! Building and testing packages inside a chroot.
//!
//! A chroot holds a pristine root image and a disposable working copy of it.
//! The operations of this library set the chroot up, keep its packages up to
//! date, bring the working copy back in line with the root image, build a
//! package inside the working copy, and try a built package out there.
//!
//! No operation touches the outside world. Each is taken step by step: a
//! step is handed the event that answered the request of the step before it,
//! and gives back what to tell the user and what to request next. Whoever
//! calls the library starts the programs, probes and creates what is on
//! disk, and reports what came of it. One request the library can answer
//! itself: `process::locate` searches the search path for a program.

pub mod building;
pub mod commands;
pub mod course;
pub mod environment;
pub mod missing_deps;
pub mod notice;
pub mod process;
pub mod setup;
pub mod sync;
pub mod testing;
pub mod text;
pub mod update;
