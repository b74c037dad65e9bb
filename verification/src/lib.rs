//! The decisions of a bare-bones Direct3D 12 game: which native call comes
//! next while the window and the presentation pipeline are brought up, with
//! which parameters, and what follows from each answer.
//!
//! The crate makes no native call of its own. A driver performs each
//! [`stage::Step`] and reports what came back as an [`stage::Event`]; handles
//! of native objects pass through as plain integers.

pub mod codes;
pub mod window;
pub mod pipeline;
pub mod game;
pub mod stage;
pub mod run;
