//! Build-time provenance: facts about the checkout, the build environment and
//! the project, gathered into a typed store and written out as constant
//! declarations that the built program reads at no further cost.
//!
//! A run goes through the modules in this order:
//!
//! - [`env`]: the snapshot of the environment that every later step reads;
//! - [`ci`]: the platform that the snapshot was taken on;
//! - [`git`], [`project`], [`system`]: the collectors, one fragment of facts
//!   each, with a fallback for whatever could not be determined;
//! - [`store`]: the fact store, and the merge of the fragments, in which a
//!   later fragment decides;
//! - [`codegen`]: the text of the generated file;
//! - [`shadow`]: the run as a whole.
//!
//! The library computes; it neither reads the environment, the checkout,
//! the toolchain or the clock nor writes the file. Its caller hands it what
//! was read and writes what it returns.
//!
//! [`assoc`] holds the model that the contracts of the two tables share,
//! [`value`] the values of the store, [`text`] the operations on strings,
//! [`channel`] the kind of build and [`clock`] the time of the run as text.

pub mod assoc;
pub mod channel;
pub mod ci;
pub mod clock;
pub mod codegen;
pub mod env;
pub mod git;
pub mod project;
pub mod shadow;
pub mod store;
pub mod system;
pub mod text;
pub mod value;

pub use crate::ci::CIType;
pub use crate::clock::Clock;
pub use crate::env::EnvSnapshot;
pub use crate::git::RepoFacts;
pub use crate::shadow::Shadow;
pub use crate::store::FactStore;
pub use crate::system::ToolchainFacts;
pub use crate::value::{ConstType, ConstVal};
