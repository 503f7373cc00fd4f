use vstd::prelude::*;

verus! {

/// Lamp channel, written into the fifth byte of power and brightness frames.
#[derive(Clone, Copy, Debug, PartialEq, Eq, Hash, Structural)]
pub enum Channel {
    Rear,
    Front,
}

impl Channel {
    /// Wire byte of the channel.
    pub open spec fn spec_byte(self) -> u8 {
        match self {
            Channel::Rear => 0x01,
            Channel::Front => 0x05,
        }
    }

    pub fn byte(self) -> (b: u8)
        ensures
            b == self.spec_byte(),
    {
        match self {
            Channel::Rear => 0x01,
            Channel::Front => 0x05,
        }
    }
}

} // verus!
