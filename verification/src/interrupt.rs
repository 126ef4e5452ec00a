//! The stop flag: raised when the user interrupts the program, read by the polling loop.

use vstd::prelude::*;
use std::sync::atomic::AtomicBool;
use std::sync::atomic::Ordering;
use std::sync::Arc;

verus! {

/// The error type of the `ctrlc` crate, carried through as it comes.
#[verifier::external_type_specification]
#[verifier::external_body]
pub struct ExCtrlcError(ctrlc::Error);

/// Why the interrupt handler could not be installed.
#[derive(Clone, Debug, PartialEq, Eq)]
pub enum SetupError {
    /// The system does not know the signal.
    NoSuchSignal,
    /// The process has an interrupt handler already.
    MultipleHandlers,
    /// The system refused for another reason, given in its own words.
    System { detail: String },
}

/// A flag shared between the interrupt handler, which raises it, and the polling loop,
/// which reads it. It starts lowered and nothing lowers it again.
pub struct StopFlag {
    raised: Arc<AtomicBool>,
}

impl StopFlag {
    /// A flag of its own, lowered. The flag's value lives in an atomic that other
    /// threads may write, and no clause can speak of it: so none says that it is lowered.
    pub fn new() -> StopFlag {
        StopFlag { raised: Arc::new(AtomicBool::new(false)) }
    }

    /// Raises the flag.
    pub fn raise(&self) {
        self.raised.store(true, Ordering::SeqCst);
    }

    /// Whether the flag has been raised. What comes back depends on what another thread
    /// did in the meantime, so nothing is promised of it.
    pub fn is_raised(&self) -> bool {
        self.raised.load(Ordering::SeqCst)
    }
}

/// Calls `ctrlc::set_handler` with a closure that raises a second handle on `flag`.
/// Nothing is claimed of the result: whether the handler is installed depends on the
/// process and the system.
#[verifier::external_body]
fn set_interrupt_handler(flag: &StopFlag) -> (installed: Result<(), ctrlc::Error>) {
    let shared = StopFlag { raised: Arc::clone(&flag.raised) };
    ctrlc::set_handler(move || shared.raise())
}

/// Tells the variants of `ctrlc::Error` apart and keeps the text of a system error.
/// Nothing is claimed of the result.
#[verifier::external_body]
fn setup_error_of(error: ctrlc::Error) -> (kind: SetupError) {
    match error {
        ctrlc::Error::NoSuchSignal(_) => SetupError::NoSuchSignal,
        ctrlc::Error::MultipleHandlers => SetupError::MultipleHandlers,
        ctrlc::Error::System(cause) => SetupError::System { detail: cause.to_string() },
    }
}

/// What the setup gives once the installation has been tried: the flag if the handler
/// is in place, else the reason why it is not.
pub fn setup_outcome(flag: StopFlag, installed: Result<(), SetupError>) -> (outcome: Result<
    StopFlag,
    SetupError,
>)
    ensures
        outcome == match installed {
            Ok(_) => Ok::<StopFlag, SetupError>(flag),
            Err(error) => Err::<StopFlag, SetupError>(error),
        },
{
    match installed {
        Ok(_) => Ok(flag),
        Err(error) => Err(error),
    }
}

/// Makes a stop flag and installs the process's interrupt handler, which raises it.
/// The handler stays for the life of the process. Whether the installation succeeds
/// is for the system to decide, so nothing is promised of the outcome here;
/// `setup_outcome` says what is returned for each answer of the system.
pub fn listen_for_interrupt() -> (outcome: Result<StopFlag, SetupError>) {
    let flag = StopFlag::new();
    let installed = match set_interrupt_handler(&flag) {
        Ok(_) => Ok(()),
        Err(error) => Err(setup_error_of(error)),
    };
    setup_outcome(flag, installed)
}

} // verus!
