//! The state and the decisions of a Docker volume driver whose volumes are
//! clones of git repositories.
//!
//! The driver itself is in `plugin`. What it does to its state is defined in
//! `state`, what whole operations come to in `outcome`, and what holds of all
//! of it in `laws`. What each operation is for is said in `promises`, of fields
//! and answers alone; what stands behind the text they deal in, in `wording`; and
//! that nothing is lost between values and their views, in `views`.

pub mod driver;
pub mod effect;
pub mod error;
pub mod laws;
pub mod mounting;
pub mod outcome;
pub mod plugin;
pub mod promises;
pub mod removal;
pub mod repo;
pub mod state;
pub mod text;
pub mod unmounting;
pub mod views;
pub mod volume;
pub mod volumes;
pub mod wording;
