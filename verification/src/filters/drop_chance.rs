//! The drop-chance filter: drops each datagram independently with a
//! configured probability, to emulate a lossy link.

use rand::Rng;
use vstd::prelude::*;

use crate::datagram::Datagram;
use crate::filters::ConfigError;
use crate::filters::Filter;

verus! {

/// The resolution of the drop chance: a probability `p` in the unit
/// interval is held as `p * DROP_SCALE` parts.
pub const DROP_SCALE: u32 = 1000000;

/// Drops a datagram when a fresh uniform roll below `DROP_SCALE` falls
/// under the configured number of parts; stateless between calls.
#[derive(Clone, Copy)]
pub struct DropChance {
    /// The drop probability, in parts of `DROP_SCALE`.
    pub drop_parts: u32,
}

/// Relies on rand::Rng::gen_range over `0..bound`: a value uniformly
/// distributed in the half-open range, which is below `bound`; the call
/// panics only on an empty range, which `bound >= 1` rules out.
#[verifier::external_body]
fn roll_below(bound: u32) -> (r: u32)
    requires
        bound >= 1,
    ensures
        r < bound,
{
    rand::thread_rng().gen_range(0..bound)
}

impl DropChance {
    /// The configured probability lies in the unit interval.
    pub open spec fn wf(self) -> bool {
        self.drop_parts <= DROP_SCALE
    }

    /// Accepts a drop probability given in parts of `DROP_SCALE`; anything
    /// above the whole is a configuration error, refused at startup.
    /// Whether a given roll drops the datagram: exactly the rolls below the
    /// configured number of parts do, so out of `DROP_SCALE` equally likely
    /// rolls, `drop_parts` drop.
    pub fn drops_roll(&self, roll: u32) -> (r: bool)
        ensures
            r == (roll < self.drop_parts),
    {
        roll < self.drop_parts
    }

    pub fn new(drop_parts: u32) -> (r: Result<DropChance, ConfigError>)
        ensures
            match r {
                Ok(f) => drop_parts <= DROP_SCALE && f == (DropChance { drop_parts }) && f.wf(),
                Err(e) => drop_parts > DROP_SCALE && e == ConfigError::DropChanceOutOfRange,
            },
    {
        if drop_parts <= DROP_SCALE {
            Ok(DropChance { drop_parts })
        } else {
            Err(ConfigError::DropChanceOutOfRange)
        }
    }
}

impl Filter for DropChance {
    /// A zero chance can never drop.
    open spec fn passes_all(&self) -> bool {
        self.drop_parts == 0
    }

    /// A full chance leaves no roll below it.
    open spec fn drops_all(&self) -> bool {
        self.drop_parts >= DROP_SCALE
    }

    /// Rolls uniformly below `DROP_SCALE`; a roll under the configured
    /// parts drops the datagram, any other roll passes it through unchanged.
    fn apply(&self, input: Datagram) -> (r: Option<Datagram>) {
        let roll = roll_below(DROP_SCALE);
        if self.drops_roll(roll) {
            None
        } else {
            Some(input)
        }
    }
}

} // verus!
