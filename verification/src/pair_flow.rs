//! Decisions of a headless pairing attempt. The driver links the device and
//! renders the QR code concurrently under a watchdog; these functions say
//! what each side's result and the watchdog make of the attempt.
use vstd::prelude::*;

use crate::text::{concat, owned};

verus! {

/// Outcome of a single pairing attempt.
#[derive(Debug)]
pub enum PairOutcome<M> {
    Success(M),
    /// The outer watchdog fired after this many seconds.
    Timeout(u64),
    /// Anything else: the link error, a QR render failure, ...
    Failed(String),
}

/// What the QR handler reports back.
#[derive(Debug, Clone)]
pub enum QrResult {
    Rendered,
    Failed(String),
}

/// The QR side of an attempt: `handled` is what the QR handler reported for
/// the provisioning URL, or `None` when the URL channel closed before a URL
/// came.
pub fn qr_side(handled: Option<QrResult>) -> (r: Result<(), String>)
    ensures
        match handled {
            Some(QrResult::Rendered) => r is Ok,
            Some(QrResult::Failed(e)) => r matches Err(m) && m@ == e@,
            None => r matches Err(m) && m@ == "provisioning URL channel cancelled"@,
        },
{
    match handled {
        Some(QrResult::Rendered) => Ok(()),
        Some(QrResult::Failed(e)) => Err(e),
        None => Err(owned("provisioning URL channel cancelled")),
    }
}

/// The outcome of an attempt: `joined` holds the link result and the QR
/// side's result, or is `None` when the watchdog of `timeout_secs` fired.
/// A link error is reported verbatim; a QR failure after a successful link
/// still fails the attempt, prefixed with "qr handler: ".
pub fn pair_outcome<M>(joined: Option<(Result<M, String>, Result<(), String>)>, timeout_secs: u64) -> (r: PairOutcome<M>)
    ensures
        match joined {
            None => r == PairOutcome::<M>::Timeout(timeout_secs),
            Some((Err(e), _)) => r matches PairOutcome::Failed(m) && m@ == e@,
            Some((Ok(_), Err(e))) => r matches PairOutcome::Failed(m) && m@ == "qr handler: "@ + e@,
            Some((Ok(mgr), Ok(()))) => r == PairOutcome::Success(mgr),
        },
{
    match joined {
        None => PairOutcome::Timeout(timeout_secs),
        Some((Err(e), _)) => PairOutcome::Failed(e),
        Some((Ok(_), Err(e))) => PairOutcome::Failed(concat("qr handler: ", e.as_str())),
        Some((Ok(mgr), Ok(()))) => PairOutcome::Success(mgr),
    }
}

} // verus!
