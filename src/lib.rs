//! Add-on utilities for an actix-web application: a lazily initialised,
//! shared application-data cell and a declarative redirect service.

pub mod lazy_data;
pub mod redirect;
pub mod web;
