//! A message-authentication core with two interchangeable algorithms — a
//! blake3 keyed hash under a 32-byte shared key, and Ed25519 signatures —
//! together with key loading and generation, base64 transport encoding of
//! signatures, random password generation, and the small parsers and path
//! checks of the surrounding command-line tool.
//!
//! Every function is specified by its contract and verified; calls into the
//! `blake3`, `ed25519-dalek`, `base64` and `rand` crates stand behind small
//! trusted wrappers whose contracts name what those crates return.

mod codec;
mod crypto;
mod error;
mod output;
mod passwd;
mod strutil;
mod utils;

pub use codec::Base64Format;
pub use codec::decode_bytes;
pub use codec::encode_bytes;
pub use codec::parse_base64_format;
pub use codec::process_decode;
pub use codec::process_encode;
pub use crypto::Blake3;
pub use crypto::Decryptor;
pub use crypto::Ed25519;
pub use crypto::Ed25519Verifier;
pub use crypto::EncryptFormat;
pub use crypto::Encryptor;
pub use crypto::KeyGenerator;
pub use crypto::KeyLoader;
pub use crypto::lemma_key_derivation_deterministic;
pub use crypto::lemma_mismatched_key_rejected;
pub use crypto::lemma_symmetric_round_trip;
pub use crypto::parse_format;
pub use crypto::process_decrypt;
pub use crypto::process_encrypt;
pub use crypto::process_generate;
pub use error::CryptoError;
pub use output::OutputFormat;
pub use output::parse_output_format;
pub use passwd::GenPassError;
pub use passwd::GenPassOpts;
pub use passwd::process_passwd;
pub use strutil::bytes_eq;
pub use strutil::str_eq;
pub use utils::verify_input_file;
pub use utils::verify_path;
