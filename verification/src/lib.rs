//! A dynamic-DNS record-reconciliation library.
//!
//! An update request carries optional record contents (A, AAAA, TXT), an
//! optional subdomain label and an optional credential.  The library
//! authenticates the request, derives the target subdomain/domain split,
//! builds the ordered record set (falling back to the connection's observed
//! address when neither `a` nor `aaaa` is given), and drives a DNS provider
//! client through a delete-then-create cycle per record, aggregating the
//! outcome into a structured response.

pub mod domain;
pub mod handler;
pub mod ident;
pub mod provider;
pub mod reconcile;
pub mod records;
pub mod response;

pub use domain::extract_subdomain;
