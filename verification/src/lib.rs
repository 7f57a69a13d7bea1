//! Core of a server loader for Dark Souls III: it reads a directory of
//! community servers, builds the 520-byte server record that the game
//! expects, encrypts it with the game's TEA key and plans the writes that
//! put it into the running game.
//!
//! The library is verified with Verus. Where it calls into the `bytes` and
//! `reqwest` crates, what it takes on trust of them is written down at the
//! call. What touches the network, the process table or another process's
//! memory is left to the program around the library, which hands plain
//! values in and takes plain values back.

pub mod api;
pub mod buffer;
pub mod encrypt;
pub mod error;
pub mod gui;
pub mod launch;
pub mod localize;
pub mod patch;
pub mod text;
pub mod widgets;
