//! The symbolic core of an interpreter for a small language of plane geometry.
//!
//! A script names points, lines and circles, builds new ones from them and asks
//! for a drawing. This crate holds everything the interpreter decides: how names
//! are looked up and checked, which overload of a method a call selects, how
//! options cascade, which layer a shape goes to and what the drawing looks like
//! as text. It never computes with real numbers. Whatever needs arithmetic is
//! handed out as a term for a geometry kernel to evaluate, and the numbers that
//! come back are carried as they are.
//!
//! A program that runs a script goes through its statements one by one.
//!
//! * A `config` statement needs no kernel: `InterpreterState::config`.
//! * For a declaration, `InterpreterState::decl_right` gives the term for the
//!   right side. The kernel computes its value, and `InterpreterState::decl`
//!   binds the names on the left side to it.
//! * For each object of a `draw` statement, `InterpreterState::get_draw_obj`
//!   gives the term for the drawable and, once the kernel has built it,
//!   `InterpreterState::draw_request` says what is to be measured. With the
//!   measures, `InterpreterState::draw` writes the element and the label.
//! * A `decor` statement goes the same way, with
//!   `InterpreterState::decor_request` and `InterpreterState::decor`.
//! * To write the drawing out, `InterpreterState::frame_request` says what
//!   the frame is made from, and `InterpreterState::emit` puts the frame and
//!   the layers together.
//!
//! Where an object cannot be turned into a term, the program gets a
//! `Failure`. It lets the kernel try what the script has to the left of the
//! fault, and `Failure::report` says which error the statement ends with.
//!
//! What comes out is a `Fragment`: text with numbers still to be printed.
//! Printing the numbers is the last step, and the program's.
pub mod ast;
pub mod config;
pub mod decor;
pub mod dict;
pub mod draw;
pub mod eval;
pub mod functions;
pub mod interpret;
pub mod label;
pub mod laws;
pub mod render;
pub mod resolve;
pub mod structs;
pub mod terms;
pub mod text;
pub mod utils;
