//! Command lines for the `ffmpeg` transcoder.
//!
//! Each supported operation maps an input file path, and for some operations
//! a few lines of text typed by the user, to the ordered argument list that
//! is handed to `ffmpeg`. Nothing here touches a file, a terminal or a
//! process: the functions go from plain values to plain values, and their
//! contracts say exactly which values.
//!
//! A run of the program passes through the modules in this order:
//! [`cli`] reads selector and path out of the argument vector, [`operation`]
//! knows the selectors and what each operation asks, [`dispatch`] trims the
//! answers and calls the handler, [`handlers`] build the argument lists from
//! the [`parts`] of the path, and [`invoker`] judges how the transcoder
//! ended. [`error`] holds what can go wrong on the way, [`text`] what is
//! needed of strings.

pub mod cli;
pub mod dispatch;
pub mod error;
pub mod handlers;
pub mod invoker;
pub mod operation;
pub mod parts;
pub mod text;
