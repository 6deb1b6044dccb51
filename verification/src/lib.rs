//! `ourl` builds a destination URL from a requested path, a domain choice and
//! an optional alias table, ready to be opened in a browser.
//!
//! Domain selection follows a fixed precedence: a named-shortener flag beats
//! the environment override, which beats the domain flag, which defaults to a
//! hard-coded host. Alias mode instead looks a short name up in a table loaded
//! from a JSON file, or lists that table.

pub mod alias;
pub mod cli;
pub mod errors;
pub mod resolver;
