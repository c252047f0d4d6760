//! The rules of one device-linking attempt. The driver (which opens the
//! store, talks to the server and runs the timer) asks [`begin_linking`]
//! whether an attempt may start, then hands every event of the attempt to
//! [`on_link_event`] and publishes the states it returns, in order.
use vstd::prelude::*;

use crate::provisioning::error::{error_text, ProvisioningError, ProvisioningErrorView};
use crate::provisioning::qr::{generate_qr_svg, provisioning_qr};
use crate::provisioning::state::{active, ProvisioningState, ProvisioningStateView};
use crate::text::owned;

verus! {

/// Seconds an attempt may take before it is abandoned.
pub const PROVISIONING_TIMEOUT_SECS: u64 = 120;

/// Something that happened during a linking attempt.
#[derive(Debug, Clone)]
pub enum LinkEvent {
    /// Opening the encrypted store failed, with the store's error text.
    StoreFailed(String),
    /// The server sent the provisioning URL to show as a QR code.
    UrlReceived(String),
    /// The URL channel closed without a URL.
    UrlChannelClosed,
    /// The phone scanned the code and the device is linked.
    Linked,
    /// Linking failed, with the error text.
    LinkFailed(String),
    /// The attempt ran out of time.
    TimedOut,
    /// The user cancelled the attempt.
    Cancelled,
}

/// What one event does: the states to publish, in order, and, when the
/// attempt is over, how it ended.
#[derive(Debug, Clone)]
pub struct LinkStep {
    pub published: Vec<ProvisioningState>,
    pub finished: Option<Result<(), ProvisioningError>>,
}

/// The state published when a QR image could not be made.
pub open spec fn qr_failure_state(e: Seq<char>) -> ProvisioningStateView {
    ProvisioningStateView::Error {
        message: error_text(ProvisioningErrorView::QrGenerationFailed(e)),
    }
}

/// An attempt may start unless one is under way; it then shows Connecting.
pub fn begin_linking(current: &ProvisioningState) -> (r: Result<ProvisioningState, ProvisioningError>)
    ensures
        active(current.deep_view()) ==> r matches Err(ProvisioningError::AlreadyInProgress),
        !active(current.deep_view()) ==> (r matches Ok(s) && s.deep_view() is Connecting),
{
    if current.is_active() {
        Err(ProvisioningError::AlreadyInProgress)
    } else {
        Ok(ProvisioningState::Connecting)
    }
}

/// The state to publish for a received provisioning URL: the QR code to
/// scan, or an error carrying the QR failure's text.
pub fn url_state(url: &str) -> (r: ProvisioningState)
    ensures
        match provisioning_qr(url@) {
            Ok(svg) => r.deep_view() == (ProvisioningStateView::WaitingForScan { qr_code_svg: svg }),
            Err(e) => r.deep_view() == qr_failure_state(e),
        },
{
    match generate_qr_svg(url) {
        Ok(svg) => ProvisioningState::WaitingForScan { qr_code_svg: svg },
        Err(e) => ProvisioningState::Error { message: e.message() },
    }
}

/// What [`on_link_event`] does with `event`, as a relation between the
/// device name, the event and the step.
///
/// - A store failure publishes the store error's text and ends the attempt
///   with that store error (so the attempt may be retried).
/// - A URL publishes the QR code to scan (or the QR failure).
/// - A closed URL channel does nothing.
/// - Linking, well or badly, publishes Provisioning and then Registered
///   (with the device name) or the error text; a failure ends with a
///   provisioning error carrying that text.
/// - A time-out or a cancellation publishes an error and ends the attempt.
pub open spec fn link_step(device_name: Seq<char>, event: LinkEvent, step: LinkStep) -> bool {
    match event {
        LinkEvent::StoreFailed(e) => {
            &&& step.published@.len() == 1
            &&& step.published@[0].deep_view() == (ProvisioningStateView::Error {
                message: error_text(ProvisioningErrorView::StoreError(e@)),
            })
            &&& step.finished matches Some(Err(ProvisioningError::StoreError(m))) && m@ == e@
        },
        LinkEvent::UrlReceived(url) => {
            &&& step.published@.len() == 1
            &&& match provisioning_qr(url@) {
                Ok(svg) => step.published@[0].deep_view() == (ProvisioningStateView::WaitingForScan {
                    qr_code_svg: svg,
                }),
                Err(e) => step.published@[0].deep_view() == qr_failure_state(e),
            }
            &&& step.finished is None
        },
        LinkEvent::UrlChannelClosed => {
            &&& step.published@.len() == 0
            &&& step.finished is None
        },
        LinkEvent::Linked => {
            &&& step.published@.len() == 2
            &&& step.published@[0].deep_view() is Provisioning
            &&& step.published@[1].deep_view() == (ProvisioningStateView::Registered {
                device_name: device_name,
            })
            &&& step.finished == Some(Ok::<(), ProvisioningError>(()))
        },
        LinkEvent::LinkFailed(e) => {
            &&& step.published@.len() == 2
            &&& step.published@[0].deep_view() is Provisioning
            &&& step.published@[1].deep_view() == (ProvisioningStateView::Error { message: e@ })
            &&& step.finished matches Some(Err(ProvisioningError::ProvisioningFailed(m))) && m@
                == e@
        },
        LinkEvent::TimedOut => {
            &&& step.published@.len() == 1
            &&& step.published@[0].deep_view() == (ProvisioningStateView::Error {
                message: "timed out after 120s"@,
            })
            &&& step.finished matches Some(Err(ProvisioningError::Timeout(n))) && n
                == PROVISIONING_TIMEOUT_SECS
        },
        LinkEvent::Cancelled => {
            &&& step.published@.len() == 1
            &&& step.published@[0].deep_view() == (ProvisioningStateView::Error {
                message: "cancelled by user"@,
            })
            &&& step.finished matches Some(Err(ProvisioningError::Cancelled))
        },
    }
}

/// Apply one event of an attempt.
pub fn on_link_event(device_name: &str, event: &LinkEvent) -> (step: LinkStep)
    ensures
        link_step(device_name@, *event, step),
{
    let mut published: Vec<ProvisioningState> = Vec::new();
    match event {
        LinkEvent::StoreFailed(e) => {
            let err = ProvisioningError::StoreError(owned(e.as_str()));
            published.push(ProvisioningState::Error { message: err.message() });
            LinkStep { published, finished: Some(Err(err)) }
        },
        LinkEvent::UrlReceived(url) => {
            published.push(url_state(url.as_str()));
            LinkStep { published, finished: None }
        },
        LinkEvent::UrlChannelClosed => LinkStep { published, finished: None },
        LinkEvent::Linked => {
            published.push(ProvisioningState::Provisioning);
            published.push(ProvisioningState::Registered { device_name: owned(device_name) });
            LinkStep { published, finished: Some(Ok(())) }
        },
        LinkEvent::LinkFailed(e) => {
            published.push(ProvisioningState::Provisioning);
            published.push(ProvisioningState::Error { message: owned(e.as_str()) });
            LinkStep {
                published,
                finished: Some(Err(ProvisioningError::ProvisioningFailed(owned(e.as_str())))),
            }
        },
        LinkEvent::TimedOut => {
            published.push(ProvisioningState::Error { message: owned("timed out after 120s") });
            LinkStep {
                published,
                finished: Some(Err(ProvisioningError::Timeout(PROVISIONING_TIMEOUT_SECS))),
            }
        },
        LinkEvent::Cancelled => {
            published.push(ProvisioningState::Error { message: owned("cancelled by user") });
            LinkStep { published, finished: Some(Err(ProvisioningError::Cancelled)) }
        },
    }
}

/// The state after a step: the last state it published, or the state before
/// it when it published nothing.
pub open spec fn state_after(before: ProvisioningStateView, published: Seq<ProvisioningState>) -> ProvisioningStateView {
    if published.len() == 0 {
        before
    } else {
        published.last().deep_view()
    }
}

/// Every attempt that ends leaves the state terminal, whatever it was
/// before: a failed attempt's last published state is an error, a
/// successful one's is Registered; either way a new attempt may start.
pub proof fn lemma_finished_attempt_is_terminal(
    device_name: Seq<char>,
    event: LinkEvent,
    step: LinkStep,
    before: ProvisioningStateView,
)
    requires
        link_step(device_name, event, step),
        step.finished is Some,
    ensures
        state_after(before, step.published@) is Registered || state_after(before, step.published@) is Error,
        !active(state_after(before, step.published@)),
{
}

/// A time-out or a cancellation moves any state to an error.
pub proof fn lemma_abort_from_any_state(
    device_name: Seq<char>,
    event: LinkEvent,
    step: LinkStep,
    before: ProvisioningStateView,
)
    requires
        link_step(device_name, event, step),
        event is TimedOut || event is Cancelled,
    ensures
        state_after(before, step.published@) is Error,
{
}

/// Idle, a failed attempt and a finished one may all start again.
pub proof fn lemma_retry_allowed(s: ProvisioningStateView)
    requires
        s is Idle || s is Error || s is Registered,
    ensures
        !active(s),
{
}

} // verus!
