use vstd::prelude::*;

use crate::text::{concat, owned, with_decimal};
use crate::text::decimal;

verus! {

/// Mathematical form of a [`ProvisioningError`].
pub enum ProvisioningErrorView {
    Timeout(u64),
    Cancelled,
    ConnectionFailed(Seq<char>),
    QrGenerationFailed(Seq<char>),
    ProvisioningFailed(Seq<char>),
    StoreError(Seq<char>),
    AlreadyInProgress,
}

/// Why linking did not complete.
#[derive(Debug, Clone)]
pub enum ProvisioningError {
    Timeout(u64),
    Cancelled,
    ConnectionFailed(String),
    QrGenerationFailed(String),
    ProvisioningFailed(String),
    StoreError(String),
    AlreadyInProgress,
}

impl DeepView for ProvisioningError {
    type V = ProvisioningErrorView;

    open spec fn deep_view(&self) -> ProvisioningErrorView {
        match self {
            ProvisioningError::Timeout(n) => ProvisioningErrorView::Timeout(*n),
            ProvisioningError::Cancelled => ProvisioningErrorView::Cancelled,
            ProvisioningError::ConnectionFailed(m) => ProvisioningErrorView::ConnectionFailed(m@),
            ProvisioningError::QrGenerationFailed(m) => ProvisioningErrorView::QrGenerationFailed(m@),
            ProvisioningError::ProvisioningFailed(m) => ProvisioningErrorView::ProvisioningFailed(m@),
            ProvisioningError::StoreError(m) => ProvisioningErrorView::StoreError(m@),
            ProvisioningError::AlreadyInProgress => ProvisioningErrorView::AlreadyInProgress,
        }
    }
}

/// The text shown for each error.
pub open spec fn error_text(e: ProvisioningErrorView) -> Seq<char> {
    match e {
        ProvisioningErrorView::Timeout(n) => "provisioning timed out after "@ + decimal(n as nat)
            + " seconds"@,
        ProvisioningErrorView::Cancelled => "provisioning was cancelled"@,
        ProvisioningErrorView::ConnectionFailed(m) => "websocket connection failed: "@ + m,
        ProvisioningErrorView::QrGenerationFailed(m) => "failed to generate QR code: "@ + m,
        ProvisioningErrorView::ProvisioningFailed(m) => "provisioning failed: "@ + m,
        ProvisioningErrorView::StoreError(m) => "store error: "@ + m,
        ProvisioningErrorView::AlreadyInProgress => "already provisioning"@,
    }
}

impl ProvisioningError {
    /// The error's text (what it displays and serialises as).
    pub fn message(&self) -> (r: String)
        ensures
            r@ == error_text(self.deep_view()),
    {
        match self {
            ProvisioningError::Timeout(n) => {
                let head = with_decimal("provisioning timed out after ", *n);
                concat(head.as_str(), " seconds")
            },
            ProvisioningError::Cancelled => owned("provisioning was cancelled"),
            ProvisioningError::ConnectionFailed(m) => concat("websocket connection failed: ", m.as_str()),
            ProvisioningError::QrGenerationFailed(m) => concat("failed to generate QR code: ", m.as_str()),
            ProvisioningError::ProvisioningFailed(m) => concat("provisioning failed: ", m.as_str()),
            ProvisioningError::StoreError(m) => concat("store error: ", m.as_str()),
            ProvisioningError::AlreadyInProgress => owned("already provisioning"),
        }
    }
}

} // verus!
