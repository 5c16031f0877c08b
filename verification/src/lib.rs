//! Verified core of a small law-firm web site.
//!
//! The site serves one fixed index page at the root route and files from a
//! static asset directory under the `/static` mount point. This crate holds
//! everything the server decides or computes: routing a request path,
//! rendering the fixed pages, building the directory listing, choosing a
//! content type, and formatting the bind address. The network listener and
//! the filesystem reads live outside, hand plain values in, and take a
//! [`response::Response`] back.

pub mod config;
pub mod decimal;
pub mod mime;
pub mod pages;
pub mod response;
pub mod routing;
pub mod text;
