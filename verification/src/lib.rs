//! The verified core of `signet`, the Signet Drive command-line interface.

pub mod clock;
pub mod codec;
pub mod dispatch;
pub mod error;
pub mod garnet;
pub mod garnet_credential;
pub mod garnet_grant_status_client;
pub mod garnet_pickup;
pub mod garnet_revocation;
pub mod host_channel;
pub mod host_signer;
pub mod http;
pub mod hybrid;
pub mod install;
pub mod json;
pub mod keystore;
pub mod menubar;
pub mod names;
pub mod output;
pub mod random;
pub mod recipient_verify;
pub mod text;
pub mod wire;
