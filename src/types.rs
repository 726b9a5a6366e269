//! The choice of weight table, and one collation element as four fields.
use vstd::prelude::*;

use crate::weights::{
    pack_weights, primary, primary_of, secondary, secondary_of, tertiary, tertiary_of,
    variability, variable_of,
};

verus! {

/// Which table of character weights to use. With the CLDR table there is a
/// further choice of locale; `Root` is the table unmodified.
#[derive(Copy, Clone, PartialEq, Eq, Structural, Ord, PartialOrd, Hash, Debug)]
pub enum Tailoring {
    /// The CLDR root collation order, and locale tailorings based on it.
    Cldr(Locale),
    /// The default table of the Unicode Collation Algorithm.
    Ducet,
}

impl Default for Tailoring {
    fn default() -> (r: Self)
        ensures
            r == Tailoring::Cldr(Locale::Root),
    {
        Tailoring::Cldr(Locale::Root)
    }
}

/// A locale layered on the CLDR root table.
#[derive(Clone, Copy, Debug, Hash, PartialEq, Eq, Structural, PartialOrd, Ord)]
pub enum Locale {
    /// Arabic script sorts before Latin script.
    ArabicScript,
    /// The CLDR root collation order.
    Root,
}

impl Default for Locale {
    fn default() -> (r: Self)
        ensures
            r == Locale::Root,
    {
        Locale::Root
    }
}

/// One collation element.
#[derive(Copy, Clone, Eq, PartialEq, Structural, Ord, PartialOrd, Hash, Debug)]
pub struct Weights {
    pub variable: bool,
    pub primary: u16,
    pub secondary: u16,
    pub tertiary: u16,
}

impl Default for Weights {
    fn default() -> (r: Self)
        ensures
            r == (Weights { variable: false, primary: 0, secondary: 0, tertiary: 0 }),
    {
        Weights { variable: false, primary: 0, secondary: 0, tertiary: 0 }
    }
}

impl Weights {
    /// Whether the fields fit the packed form.
    pub open spec fn packable(&self) -> bool {
        self.secondary < 512 && self.tertiary < 64
    }

    /// The packed form of this element.
    pub fn pack(&self) -> (r: u32)
        requires
            self.packable(),
        ensures
            Weights::unpacked(r) == *self,
    {
        pack_weights(self.variable, self.primary, self.secondary, self.tertiary)
    }

    pub open spec fn unpacked(w: u32) -> Weights {
        Weights {
            variable: variable_of(w),
            primary: primary_of(w),
            secondary: secondary_of(w),
            tertiary: tertiary_of(w),
        }
    }

    /// Reads the four fields out of a packed element.
    pub fn unpack(w: u32) -> (r: Weights)
        ensures
            r == Weights::unpacked(w),
    {
        Weights {
            variable: variability(w),
            primary: primary(w),
            secondary: secondary(w),
            tertiary: tertiary(w),
        }
    }
}

} // verus!
