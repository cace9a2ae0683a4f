//! `purecrypto_tpm`: a TPM 2.0 stack that speaks the TPM 2.0 command/response
//! wire protocol directly, with the session cryptography (SHA-2 for object
//! Names and `cpHash`/`rpHash`, HMAC for HMAC sessions, KDFa, AES-CFB) drawn
//! from the `purecrypto` crate.
//!
//! # Layers
//!
//! 1. **Marshalling** ([`marshal`]): the big-endian [`Marshal`](marshal::Marshal)
//!    and [`Unmarshal`](marshal::Unmarshal) traits and the bounds-checked
//!    [`Reader`](marshal::Reader).
//! 2. **Types** ([`types`]): the TPM constants (`TPM_CC`, `TPM_RC`,
//!    `TPM_ALG_ID`, handles ...) and the structure subset this crate uses.
//! 3. **Transport** ([`transport`]): the [`Transport`](transport::Transport)
//!    trait that carries one command and its one response.
//! 4. **Sessions** ([`session`]): KDFa-derived session keys and HMAC
//!    authorization with rolling nonces.
//! 5. **Commands** ([`commands`]): typed wrappers (`Startup`, `GetRandom`,
//!    `GetCapability`, `PcrRead`, `CreatePrimary`, `Create`, `Load`,
//!    `Unseal`, ...) dispatched through [`Tpm`].
pub mod commands;
pub mod crypto;
pub mod error;
pub mod marshal;
pub mod session;
pub mod tpm;
pub mod transport;
pub mod types;

pub use error::{Error, Result, TpmRc};
pub use session::Session;
pub use tpm::{Auth, Tpm};
