//! Key derivation and authenticated envelope encryption of short text values.
//!
//! A 32-byte key is derived from an application-held local secret and a
//! caller secret (`key`); text is sealed under that key with AES-256-GCM and a
//! fresh nonce, and carried as the base64 text of `nonce || ciphertext || tag`
//! (`envelope`). Vault passwords are hashed with Argon2 under a random salt
//! (`vault`).
pub mod encoding;
pub mod envelope;
pub mod error;
pub mod key;
pub mod vault;
