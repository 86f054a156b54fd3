//! Declarative renaming of project trees: changes are described as data,
//! applied one at a time with an undo action recorded for each, and can be
//! rolled back in reverse order.

pub mod path;
pub mod text;
pub mod digest;
pub mod pattern;
pub mod ini_doc;
pub mod changes;
pub mod model;
pub mod engine;
pub mod changesets;
pub mod unreal;
pub mod pathfinder;
pub mod workflows;
pub mod descriptor;
pub mod renamer;
