//! Timestamp-bearing 64-bit identifiers.

use vstd::prelude::*;

use crate::text;

verus! {

/// Milliseconds between the Unix epoch and the platform's epoch.
pub const DISCORD_EPOCH: u64 = 1420070400000;

/// A point in time, in milliseconds since the Unix epoch.
#[derive(Clone, Copy, Debug, PartialEq, Eq, Structural)]
pub struct Timestamp {
    pub millis: u64,
}

/// The snowflake struct: a unique identifier whose upper bits carry the
/// moment it was minted.
#[derive(Clone, Copy, Debug, PartialEq, Eq, Structural, Hash)]
pub struct Snowflake {
    pub inner: u64,
}

impl Snowflake {
    /// The raw 64-bit value of this snowflake.
    pub open spec fn value(self) -> u64 {
        self.inner
    }

    /// The raw 64-bit value, for callers outside ghost code.
    pub fn get(&self) -> (v: u64)
        ensures
            v == self.value(),
    {
        self.inner
    }

    /// Create a new snowflake for the given instant.  The instant must not
    /// precede the platform epoch and must fit the 42 timestamp bits.
    pub fn new(t: Timestamp) -> (s: Snowflake)
        requires
            DISCORD_EPOCH <= t.millis,
            t.millis - DISCORD_EPOCH < 0x40000000000,
        ensures
            s.value() == (t.millis - DISCORD_EPOCH) * 0x400000,
    {
        let delta = t.millis - DISCORD_EPOCH;
        Snowflake { inner: delta * 0x400000 }
    }

    /// Create a new snowflake representing the current time instant, as far
    /// as the wall clock allows: an instant outside the representable range
    /// yields the zero snowflake.
    pub fn now() -> (s: Snowflake)
        ensures
            s.value() % 0x400000 == 0,
    {
        let ms = current_unix_millis();
        let epoch: i64 = 1420070400000;
        let limit: i64 = 0x40000000000;
        if ms < epoch || ms - epoch >= limit {
            proof {
                assert((0u64 as int) % 0x400000 == 0);
            }
            Snowflake { inner: 0 }
        } else {
            let delta_signed = ms - epoch;
            let delta = delta_signed as u64;
            proof {
                assert((0 <= delta_signed && delta_signed < 0x40000000000) ==> (delta_signed
                    as u64) < 0x40000000000u64) by (bit_vector);
                assert((delta * 0x400000) % 0x400000 == 0) by (nonlinear_arith);
            }
            Snowflake { inner: delta * 0x400000 }
        }
    }

    /// Returns the instant encoded in the snowflake's upper bits.
    pub fn timestamp(&self) -> (t: Timestamp)
        ensures
            t.millis == self.value() / 0x400000 + DISCORD_EPOCH,
    {
        let millis = self.inner / 0x400000 + DISCORD_EPOCH;
        Timestamp { millis }
    }

    /// Reads a snowflake from its decimal text; nothing is returned when the
    /// text is not a decimal number that fits 64 bits.
    pub fn parse(s: &str) -> (r: Option<Snowflake>)
        ensures
            match r {
                Some(v) => s@.len() > 0 && text::all_digits(s@) && v.value() as int
                    == text::dec_value(s@),
                None => s@.len() == 0 || !text::all_digits(s@) || text::dec_value(s@) > u64::MAX,
            },
    {
        match text::parse_u64(s) {
            Some(v) => Some(Snowflake { inner: v }),
            None => None,
        }
    }

    /// Renders the snowflake's value in decimal.
    pub fn to_text(&self) -> (r: String)
        ensures
            r@ == text::dec_rep(self.value() as nat),
    {
        text::to_dec_string(self.inner)
    }
}

impl From<u64> for Snowflake {
    fn from(id: u64) -> (s: Snowflake) {
        Snowflake { inner: id }
    }
}

impl vstd::std_specs::convert::FromSpecImpl<u64> for Snowflake {
    open spec fn obeys_from_spec() -> bool {
        true
    }

    open spec fn from_spec(id: u64) -> Snowflake {
        Snowflake { inner: id }
    }
}

/// Relies on chrono's `Utc::now`: the current wall-clock time in
/// milliseconds since the Unix epoch.  Nothing is promised of the value.
#[verifier::external_body]
fn current_unix_millis() -> i64 {
    chrono::Utc::now().timestamp_millis()
}

} // verus!
