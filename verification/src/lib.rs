//! A small watch-and-render library for running a single OCaml source file
//! through the `ocaml` toplevel and drawing the result on a terminal.
//!
//! The library holds the pure logic: path validation, banner and screen
//! construction (exact ANSI escape sequences, obtained from `termion`),
//! classification of an interpreter run, and the watch-loop decision.
//! The surrounding binary performs the actual file-system queries, the
//! subprocess invocation and the terminal writes.

pub mod executor;
pub mod paths;
pub mod render;
pub mod watch;
