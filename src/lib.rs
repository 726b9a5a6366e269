//! Multi-level comparison of collation element arrays, following the Unicode
//! Collation Algorithm.

pub mod weights;
pub mod sort_key;
pub mod ordering;
pub mod ascii;
pub mod types;

pub use ascii::{all_ascii, compare_ascii};
pub use sort_key::{compare_incremental, get_key};
pub use types::{Locale, Tailoring, Weights};
pub mod lookup;
pub use lookup::Catalog;
pub use weights::{pack_weights, primary, secondary, tertiary, variability, SENTINEL};
