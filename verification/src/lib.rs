//! Poseidon hash over the BN128 scalar field, instantiated with the round
//! constants and MDS matrices of the circomlib reference implementation, for
//! input arities 1 through 16.

mod constants;
pub mod field;
pub mod hex;
pub mod params;
pub mod permutation;

pub use field::Fe;
pub use params::PoseidonError;
pub use params::PoseidonParams;
pub use params::PoseidonParamsSerialized;
pub use params::decode_params;
pub use params::read_constants;
pub use permutation::poseidon;
