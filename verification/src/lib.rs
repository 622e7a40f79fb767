//! Assembles a practice exam from a library of exercises: one exercise is
//! drawn for every level of the chosen exam and a project is laid out for it.
//!
//! The library is a folder of exams; an exam is a folder of levels, and a
//! level a folder of exercises. The crate decides and does no outside work:
//! it is told what the folders hold, and says what is to be listed, asked,
//! created and copied. [`library`] reads listings, [`order`] and [`numeral`]
//! put the levels in order, [`selector`] draws, [`scaffold`] and
//! [`materialize`] lay out one project, and [`assembly`], with [`state`],
//! [`command`] and [`transition`], leads an assembly from its beginning to
//! its end; [`runs`] holds what is true of every assembly.

pub mod assembly;
pub mod command;
pub mod error;
pub mod library;
pub mod materialize;
pub mod names;
pub mod numeral;
pub mod order;
pub mod paths;
pub mod runs;
pub mod scaffold;
pub mod selector;
pub mod state;
pub mod transition;
