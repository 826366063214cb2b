//! The native panel invoker: on the one supported platform it asks the
//! operating system to bring its character palette to the front; on every
//! other platform the operation is a guaranteed no-op.

use vstd::prelude::*;

verus! {

/// The operating system the shell is running on. Exactly one platform
/// supports the native character palette.
#[derive(Clone, Copy, PartialEq, Eq, Structural, Debug)]
pub enum Platform {
    MacOs,
    Windows,
    Linux,
    Other,
}

/// What one invocation of the panel operation amounts to. The caller never
/// sees a failure: either the palette is requested from the system, or
/// nothing happens at all.
#[derive(Clone, Copy, PartialEq, Eq, Structural, Debug)]
pub enum PanelOutcome {
    /// The system was asked to order its character palette to the front.
    PaletteRequested,
    /// Unsupported platform: the call returns normally with no effect.
    NoOp,
}

/// The outcome of the panel operation is a function of the platform alone.
pub open spec fn panel_outcome(platform: Platform) -> PanelOutcome {
    if platform == Platform::MacOs {
        PanelOutcome::PaletteRequested
    } else {
        PanelOutcome::NoOp
    }
}

/// The outcomes of `n` consecutive invocations on one platform.
pub open spec fn outcomes_after(platform: Platform, n: nat) -> Seq<PanelOutcome>
    decreases n,
{
    if n == 0 {
        Seq::empty()
    } else {
        outcomes_after(platform, (n - 1) as nat).push(panel_outcome(platform))
    }
}

/// The component that carries the panel operation. It holds nothing but the
/// platform it was built for, fixed at startup; invocations keep it intact,
/// so no call leaves residual state behind for a later one.
#[derive(Clone, Copy, PartialEq, Eq, Structural, Debug)]
pub struct PanelInvoker {
    pub platform: Platform,
}

impl PanelInvoker {
    /// Builds the invoker for the platform the process runs on, determined
    /// once at startup and passed down rather than queried ad hoc.
    pub fn new(platform: Platform) -> (inv: PanelInvoker)
        ensures
            inv.platform == platform,
    {
        PanelInvoker { platform }
    }

    /// The panel operation: decides whether the system character palette is
    /// to be requested. Fire-and-forget — it never fails, and it leaves the
    /// invoker exactly as it found it.
    pub fn invoke(&mut self) -> (o: PanelOutcome)
        ensures
            *final(self) == *old(self),
            o == panel_outcome(old(self).platform),
    {
        match self.platform {
            Platform::MacOs => PanelOutcome::PaletteRequested,
            _ => PanelOutcome::NoOp,
        }
    }
}

/// However many times the panel operation runs, every invocation yields the
/// one outcome the platform determines: no call is affected by the calls
/// before it.
pub proof fn lemma_invoker_stateless(platform: Platform, n: nat)
    ensures
        outcomes_after(platform, n).len() == n,
        forall|i: int| 0 <= i < n ==> outcomes_after(platform, n)[i] == panel_outcome(platform),
    decreases n,
{
    if n > 0 {
        lemma_invoker_stateless(platform, (n - 1) as nat);
    }
}

/// On any platform other than the supported one, the panel operation is a
/// no-op every time, regardless of call count.
pub proof fn lemma_noop_on_unsupported(platform: Platform, n: nat)
    requires
        platform != Platform::MacOs,
    ensures
        forall|i: int| 0 <= i < n ==> outcomes_after(platform, n)[i] == PanelOutcome::NoOp,
{
    lemma_invoker_stateless(platform, n);
}

/// On the supported platform, repeated invocations are idempotent: each call
/// requests the palette, and none leaves state behind that would change a
/// later call.
pub proof fn lemma_supported_idempotent(n: nat)
    ensures
        forall|i: int|
            0 <= i < n ==> outcomes_after(Platform::MacOs, n)[i]
                == PanelOutcome::PaletteRequested,
{
    lemma_invoker_stateless(Platform::MacOs, n);
}

} // verus!
