//! A cell, shared between threads, that holds at most one pending one-shot
//! action. Any thread may replace the action or take and run it; each action
//! put in is run exactly once or disposed of exactly once, never both.
//!
//! [`CallbackCell`] holds actions that take nothing; [`CallbackCellArgs`]
//! holds actions that consume an input and give an output. Both keep their
//! action in an [`envelope::Envelope`] inside a [`slot::Slot`].

pub mod envelope;
pub mod slot;
pub mod with_args;
pub mod without_args;

pub use with_args::CallbackCellArgs;
pub use without_args::CallbackCell;
