//! Decisions, configuration and text encoding of small Win32 / Direct3D 11
//! windowed programs, kept apart from the calls that talk to the operating
//! system and the graphics driver.
//!
//! - `winproc`: the calls the window procedure makes for a message, in order;
//! - `msgloop`: one pass of the message loop, and what a run of passes does;
//! - `setup`: the calls with their arguments, the Direct3D objects that exist,
//!   and running a list of calls, each with what its failure does;
//! - `program`: the calls, loop and procedure of each program;
//! - `config`: the argument values: window class and placement, device and
//!   swap chain creation, vertex buffer, input layout, shaders, texts;
//! - `wide`: UTF-16 text for the wide-character calls.

pub mod config;
pub mod msgloop;
pub mod program;
pub mod setup;
pub mod wide;
pub mod winproc;
