//! Transaction signing for a gas-sponsorship service.
//!
//! A sponsor signs transactions through one of two backends: a remote
//! signing service that keeps the private key out of this process, or an
//! in-memory Ed25519 key pair. Both sign the same intent-wrapped encoding of
//! the transaction, so their signatures are interchangeable.

mod address;
mod crypto;
mod error;
mod intent;
mod signature;
mod signer;
mod wire;

pub use address::SuiAddress;
pub use error::SigningError;
pub use signature::{Signature, SignatureScheme};
pub use intent::{signing_message_of, Intent, IntentMessage, TransactionData};
pub use signer::{verify_signature, SidecarTxSigner, SuiKeyPair, TestTxSigner, TxSigner};
