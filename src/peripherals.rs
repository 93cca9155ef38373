use vstd::prelude::*;

verus! {

/// A second claim of something that can be had once only.
#[derive(Clone, Copy, Debug, PartialEq, Eq, Structural)]
pub struct AlreadyClaimed;

/// A one-shot: the first claim succeeds and every later one fails. Guards the taking of
/// the console's peripherals and the installing of the clock and the logger.
#[derive(Clone, Copy, Debug, PartialEq, Eq, Structural)]
pub struct OnceFlag {
    pub claimed: bool,
}

impl OnceFlag {
    /// A flag not yet claimed.
    pub fn new() -> (r: Self)
        ensures
            !r.claimed,
    {
        OnceFlag { claimed: false }
    }

    /// Claims the flag: succeeds if and only if it was not claimed before.
    pub fn claim(&mut self) -> (r: Result<(), AlreadyClaimed>)
        ensures
            final(self).claimed,
            r is Ok <==> !old(self).claimed,
    {
        if self.claimed {
            Err(AlreadyClaimed)
        } else {
            self.claimed = true;
            Ok(())
        }
    }
}

/// Takes the console's peripherals, once, and publishes each as a resource.
#[derive(Clone, Copy, Debug, Default)]
pub struct AgbUnpackPlugin;

} // verus!
