//! Core of a comic-book viewer: content sniffing, a page store with
//! single/dual display modes, a navigation state machine, an asynchronous
//! load protocol with stale-result rejection, and the integer geometry that
//! scales and centres pages in a viewport.

pub mod history;
pub mod layout;
pub mod loader;
pub mod page;
pub mod render;
pub mod store;
pub mod utils;
