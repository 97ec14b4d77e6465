//! A catalogue of string distance and similarity metrics behind one uniform
//! interface: a closed set of algorithm variants, a dispatcher that applies a
//! chosen metric to two strings, and a normalization contract that brings
//! unnormalized counts and native [0,1] scores onto a common scale.

pub mod algospec;
pub mod laws;
pub mod methods;
pub mod naive;
pub mod registry;
pub mod scores;
pub mod strutil;
pub mod textdist;

pub use methods::Method;
pub use registry::calculate_all;
pub use registry::calculate_normalized;
pub use registry::calculate_unnormalized;
pub use registry::NamedDistance;
pub use scores::Distance;
pub use scores::Score;
