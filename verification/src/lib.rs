//! A URL-shortening service core: a link registry with passphrase-gated
//! mutation, a QR image pipeline that renders a service-owned redirect
//! payload as PNG, JPEG or SVG, and a redirect resolver.

pub mod api;
pub mod links;
pub mod qr;
pub mod registry;
pub mod text;

use vstd::prelude::*;

verus! {

/// Runtime configuration handed to the service at start.
pub struct AppConfig {
    pub database_url: String,
    pub server_url: String,
    pub image_base_path: String,
    pub domain_name: String,
}

} // verus!
