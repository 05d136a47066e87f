//! Discord's identifiers.
use vstd::prelude::*;
use crate::decimal::{decimal_text, push_decimal};

verus! {

/// An identifier of a Discord object: a 64-bit number, written in decimal.
#[derive(Clone, Copy, PartialEq, Eq, Structural, Debug)]
pub struct Snowflake(pub u64);

/// The text of a snowflake in paths and rate-limit buckets: its decimal digits.
pub open spec fn spec_snowflake_text(id: Snowflake) -> Seq<char> {
    decimal_text(id.0 as nat)
}

impl Snowflake {
    /// Appends the text of this snowflake to `s`.
    pub fn write_to(&self, s: &mut String)
        ensures
            final(s)@ == old(s)@ + spec_snowflake_text(*self),
    {
        push_decimal(s, self.0);
    }

    /// The text of this snowflake.
    pub fn to_text(&self) -> (s: String)
        ensures
            s@ == spec_snowflake_text(*self),
    {
        let mut s = String::new();
        self.write_to(&mut s);
        assert(s@ =~= spec_snowflake_text(*self));
        s
    }
}

} // verus!
