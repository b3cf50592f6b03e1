//! ACME: the account, the certificate's installation, and its renewal.

pub mod challenge;
pub mod certificate;
pub mod account;
pub mod renewal;
