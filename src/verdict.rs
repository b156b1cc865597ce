//! Forwarding verdicts and the action codes the receive hook returns.
use aya_ebpf::bindings::xdp_action;
use vstd::prelude::*;

verus! {

/// What becomes of a frame once it has been classified.
#[derive(Clone, Copy, Debug, PartialEq, Eq, Structural)]
pub enum Verdict {
    /// Deliver the frame to the networking stack.
    Pass,
    /// Discard the frame by policy. No rule of the classifier selects it.
    Drop,
    /// Discard the frame because it could not be processed.
    Aborted,
}

/// Action code of the abort verdict.
pub const ACTION_ABORTED: u32 = 0;

/// Action code of the drop verdict.
pub const ACTION_DROP: u32 = 1;

/// Action code of the pass verdict.
pub const ACTION_PASS: u32 = 2;

/// Relies on `aya_ebpf::bindings::xdp_action::XDP_ABORTED`, which is 0.
#[verifier::external_body]
fn xdp_aborted() -> (r: u32)
    ensures
        r == ACTION_ABORTED,
{
    xdp_action::XDP_ABORTED
}

/// Relies on `aya_ebpf::bindings::xdp_action::XDP_DROP`, which is 1.
#[verifier::external_body]
fn xdp_drop() -> (r: u32)
    ensures
        r == ACTION_DROP,
{
    xdp_action::XDP_DROP
}

/// Relies on `aya_ebpf::bindings::xdp_action::XDP_PASS`, which is 2.
#[verifier::external_body]
fn xdp_pass() -> (r: u32)
    ensures
        r == ACTION_PASS,
{
    xdp_action::XDP_PASS
}

impl Verdict {
    /// The action code of this verdict.
    pub open spec fn spec_code(self) -> u32 {
        match self {
            Verdict::Pass => ACTION_PASS,
            Verdict::Drop => ACTION_DROP,
            Verdict::Aborted => ACTION_ABORTED,
        }
    }

    /// The action code that the receive hook returns for this verdict.
    pub fn code(&self) -> (r: u32)
        ensures
            r == self.spec_code(),
    {
        match self {
            Verdict::Pass => xdp_pass(),
            Verdict::Drop => xdp_drop(),
            Verdict::Aborted => xdp_aborted(),
        }
    }
}

} // verus!
