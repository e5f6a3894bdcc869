use vstd::prelude::*;

verus! {

#[verifier::external_type_specification]
#[verifier::external_body]
pub struct ExIoError(std::io::Error);

#[verifier::external_type_specification]
#[verifier::external_body]
pub struct ExRecvError(crossbeam_channel::RecvError);

/// Why a session ended early, with the diagnostic of the part that failed.
#[derive(Debug)]
pub enum Error {
    /// Reading from or writing to the terminal failed.
    Io(std::io::Error),
    /// Setting up the terminal or switching its mode failed.
    Crossterm(std::io::Error),
    /// The channel that delivers input events was closed.
    Receive(crossbeam_channel::RecvError),
}

} // verus!
