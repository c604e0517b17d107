//! Gamma ramps: the 3 × 256-entry lookup tables that the display hardware
//! applies to each color channel.
use vstd::prelude::*;

verus! {

/// A 256-entry gamma ramp for one channel.
pub type GammaRamp = [u16; 256];

/// Full RGB gamma ramp (3 × 256 entries).
#[derive(Clone)]
pub struct GammaRamps {
    pub red: GammaRamp,
    pub green: GammaRamp,
    pub blue: GammaRamp,
}

/// The unmodified ramp: entry `i` is `i * 256`.
pub open spec fn identity_ramp() -> Seq<u16> {
    Seq::new(256, |i: int| (i * 256) as u16)
}

/// Whether all three channels of `g` are the unmodified ramp.
pub open spec fn is_identity(g: GammaRamps) -> bool {
    &&& g.red@ == identity_ramp()
    &&& g.green@ == identity_ramp()
    &&& g.blue@ == identity_ramp()
}

fn same_as_identity(ramp: &GammaRamp) -> (r: bool)
    ensures
        r == (ramp@ == identity_ramp()),
{
    let mut i: usize = 0;
    while i < 256
        invariant
            i <= 256,
            ramp@.len() == 256,
            forall|k: int| 0 <= k < i ==> ramp@[k] == identity_ramp()[k],
        decreases 256 - i,
    {
        if ramp[i] != (i * 256) as u16 {
            return false;
        }
        i += 1;
    }
    assert(ramp@ =~= identity_ramp());
    true
}

impl GammaRamps {
    /// Identity ramp (no modification — neutral 6500K, full brightness).
    pub fn identity() -> (r: Self)
        ensures
            is_identity(r),
            forall|i: int| 0 <= i < 256 ==> #[trigger] r.red@[i] == i * 256,
    {
        let mut ramp = [0u16; 256];
        let mut i: usize = 0;
        while i < 256
            invariant
                i <= 256,
                ramp@.len() == 256,
                forall|k: int| 0 <= k < i ==> ramp@[k] == identity_ramp()[k],
            decreases 256 - i,
        {
            ramp[i] = (i * 256) as u16;
            i += 1;
        }
        assert(ramp@ =~= identity_ramp());
        GammaRamps { red: ramp, green: ramp, blue: ramp }
    }

    /// The ramps in the `[[u16; 256]; 3]` layout (red, green, blue) that the
    /// display driver takes.
    pub fn as_raw(&self) -> (r: [[u16; 256]; 3])
        ensures
            r@ == seq![self.red, self.green, self.blue],
    {
        let r = [self.red, self.green, self.blue];
        assert(r@ =~= seq![self.red, self.green, self.blue]);
        r
    }
}

/// Whether the display's current ramps, as read back (`None` when they could
/// not be read), are unmodified. Unreadable ramps count as unmodified.
pub fn is_gamma_identity(current: Option<&GammaRamps>) -> (r: bool)
    ensures
        r == match current {
            None => true,
            Some(g) => is_identity(*g),
        },
{
    match current {
        None => true,
        Some(g) => same_as_identity(&g.red) && same_as_identity(&g.green) && same_as_identity(
            &g.blue,
        ),
    }
}

/// Whether at least one display or monitor took a write; none when there was
/// none to write to.
pub fn any_succeeded(results: &[bool]) -> (r: bool)
    ensures
        r == exists|i: int| 0 <= i < results@.len() && results@[i],
{
    let mut i: usize = 0;
    while i < results.len()
        invariant
            i <= results@.len(),
            forall|k: int| 0 <= k < i ==> !results@[k],
        decreases results.len() - i,
    {
        if results[i] {
            return true;
        }
        i += 1;
    }
    false
}

} // verus!
