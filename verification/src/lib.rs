//! Arithmetic for the Yafa pairing-friendly curves and the Edwards curve
//! embedded in them: prime fields, extension towers, curve groups and
//! pairings, each routine with a machine-checked contract.

pub mod bigint;
pub mod bits;
pub mod curves;
pub mod ed25519;
pub mod encoding;
pub mod errors;
pub mod fields;
pub mod modular;
pub mod pairing;
pub mod yafa_108;
pub mod yafa_146;
