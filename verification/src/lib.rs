//! A verified core for a snippet-manager launcher extension.
//!
//! Snippets are short reusable text bodies tagged with a name, a keyword and
//! a programming language. They are kept as a list of records; identifiers
//! are assigned sequentially. Searching fuzzy-matches a query against the
//! snippet keywords, and placeholder tokens `{%N}` in a snippet body are
//! replaced positionally by the words that follow the keyword in the query.

pub mod actions;
pub mod fuzzy;
pub mod icons;
pub mod results;
pub mod search;
pub mod snippets;
pub mod text;
