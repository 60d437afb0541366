//! The resources under their earlier names.

pub mod v1alpha1;
