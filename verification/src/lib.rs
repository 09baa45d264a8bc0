//! Lifecycle decisions of a tray-resident desktop shell: which effects a
//! tray or window event asks for, when the supervised backend
//! process is started and killed, and what the window commands answer.
//!
//! The library performs no I/O. A host hands it events and the results of the
//! operations it performed, and carries out what the library answers.

pub mod menu;
pub mod window;
pub mod run;
pub mod command;
pub mod backend;
pub mod shell;
