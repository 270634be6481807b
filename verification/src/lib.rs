//! Composable, single-use loading tasks over explicitly owned shared resources.
//!
//! A [`task::Task`] is one step of loading work.  Tasks are built into larger
//! tasks with `map`, `join`, `sequence` and `serialize`; the composed task runs
//! its parts depth first, left to right, and stops at the first failure.
//!
//! - [`error`]: the one failure value of a load.
//! - [`task`]: tasks and the combinators.
//! - [`laws`]: what holds of every composed task and of every load of entities.
//! - [`table`]: tables from names to values.
//! - [`shared`]: the state container, and the handles to the shared resources.
//! - [`load`]: descriptors, dispatch, and the loading of entities.
//! - [`scene`]: the sprite-render scene, and the load of a scene stack after the
//!   texture dictionary.
//! - [`stack`]: the scene stack and its load.
//! - [`game`]: the load that a game starts with.
pub mod error;
pub mod game;
pub mod laws;
pub mod load;
pub mod scene;
pub mod shared;
pub mod stack;
pub mod table;
pub mod task;
