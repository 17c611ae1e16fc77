//! Watches elements of web pages for change.
//!
//! A target is an address, a CSS selector and the markup that the selector's first match had
//! when the page was last looked at. This library holds everything about targets that can be
//! decided without touching a file or the network: how addresses are compared, what a page
//! yields for a selector, how the stored list changes when a target is added, removed or seen
//! to differ, and in which order a pass over the list asks for pages, sends messages and
//! rewrites the list. A driver performs the requests and reports what came of them.

pub mod cli;
pub mod expect_pretty;
pub mod model;
pub mod pass;
pub mod scrape;
pub mod search;
pub mod store;
pub mod target;
pub mod url;
