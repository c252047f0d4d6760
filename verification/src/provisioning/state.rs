use vstd::prelude::*;

verus! {

/// Mathematical form of a [`ProvisioningState`].
pub enum ProvisioningStateView {
    Idle,
    Connecting,
    WaitingForScan { qr_code_svg: Seq<char> },
    Provisioning,
    Registered { device_name: Seq<char> },
    Error { message: Seq<char> },
}

/// Where the device-linking flow stands.
///
/// Idle -> Connecting -> WaitingForScan -> Provisioning -> Registered, or
/// Error from any state; Idle and Error may start again (Connecting).
#[derive(Debug, Clone)]
pub enum ProvisioningState {
    Idle,
    Connecting,
    WaitingForScan { qr_code_svg: String },
    Provisioning,
    Registered { device_name: String },
    Error { message: String },
}

impl DeepView for ProvisioningState {
    type V = ProvisioningStateView;

    open spec fn deep_view(&self) -> ProvisioningStateView {
        match self {
            ProvisioningState::Idle => ProvisioningStateView::Idle,
            ProvisioningState::Connecting => ProvisioningStateView::Connecting,
            ProvisioningState::WaitingForScan { qr_code_svg } => ProvisioningStateView::WaitingForScan {
                qr_code_svg: qr_code_svg@,
            },
            ProvisioningState::Provisioning => ProvisioningStateView::Provisioning,
            ProvisioningState::Registered { device_name } => ProvisioningStateView::Registered {
                device_name: device_name@,
            },
            ProvisioningState::Error { message } => ProvisioningStateView::Error { message: message@ },
        }
    }
}

/// The flow has ended, well or badly.
pub open spec fn terminal(s: ProvisioningStateView) -> bool {
    s is Registered || s is Error
}

/// A linking attempt is under way.
pub open spec fn active(s: ProvisioningStateView) -> bool {
    s is Connecting || s is WaitingForScan || s is Provisioning
}

impl ProvisioningState {
    /// Registered or failed.
    pub fn is_terminal(&self) -> (r: bool)
        ensures
            r == terminal(self.deep_view()),
    {
        match self {
            ProvisioningState::Registered { .. } | ProvisioningState::Error { .. } => true,
            _ => false,
        }
    }

    /// Connecting, waiting for the scan, or provisioning.
    pub fn is_active(&self) -> (r: bool)
        ensures
            r == active(self.deep_view()),
    {
        match self {
            ProvisioningState::Connecting
            | ProvisioningState::WaitingForScan { .. }
            | ProvisioningState::Provisioning => true,
            _ => false,
        }
    }
}

/// No state is both active and terminal; idle is neither.
pub proof fn lemma_active_not_terminal(s: ProvisioningStateView)
    ensures
        !(active(s) && terminal(s)),
        s is Idle ==> !active(s) && !terminal(s),
{
}

} // verus!
