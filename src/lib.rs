//! Centering of the foreground window on the primary display: display
//! geometry, the filtering of an OS display enumeration, the bounded read of
//! a window title, and the polling state machine that decides when a window
//! is moved. The operating system calls themselves live outside this library;
//! every function here works on plain values and is verified.

pub mod rect;
pub mod monitors;
pub mod title;
pub mod controller;
