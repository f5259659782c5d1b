//! Safe, verified surface of a binding to a lattice-based morphological
//! analyser.
//!
//! The crate holds the value types, the startup-argument normalisation, the
//! feature reader and the node/path graph of one analysed sentence together
//! with its traversal. Every function carries a contract that Verus proves.
pub mod dictionary_info;
pub mod feat;
pub mod graph;
pub mod lattice;
pub mod model_args;
pub mod node;
pub mod node_iter;
pub mod request_type;
pub mod text;

pub use dictionary_info::{DictionaryInfo, DictionaryType};
pub use feat::IntoIter as FeaturesIntoIter;
pub use feat::{Feature, FeatureError, FeatureReader, Features, IntoIter};
pub use graph::Graph;
pub use lattice::{Boundary, Lattice, LatticeState};
pub use model_args::{ModelArgs, ModelCall, OptionKey, RawArgv};
pub use node::{Attribute, Node, NodeStatus, Path};
pub use node_iter::{NodeIter, NodeRevIter};
pub use request_type::RequestType;
pub use text::global_error_str;
