//! Error type of the VirtualBox plugin.

use vstd::prelude::*;
use vstd::string::StringExecFns;

verus! {

/// What can go wrong while driving VBoxManage.
#[derive(Debug)]
pub enum VBoxError {
    /// VBoxManage could not be run, or exited with failure.
    ExecutionFailed(String),
    /// A required argument is missing from the payload.
    MissingArgument(String),
    /// An argument has an invalid value.
    InvalidArgument(String),
    /// VirtualBox is not installed or not working.
    NotInstalled(String),
    /// A VM operation failed.
    OperationFailed(String),
    /// VBoxManage output could not be parsed.
    ParseError(String),
}

/// Convenience result type of the VirtualBox plugin.
pub type VBoxResult<T> = Result<T, VBoxError>;

/// Mathematical model of a [`VBoxError`]: the same variants over
/// character sequences.
pub enum VBoxErrVal {
    ExecutionFailed(Seq<char>),
    MissingArgument(Seq<char>),
    InvalidArgument(Seq<char>),
    NotInstalled(Seq<char>),
    OperationFailed(Seq<char>),
    ParseError(Seq<char>),
}

impl View for VBoxError {
    type V = VBoxErrVal;

    open spec fn view(&self) -> VBoxErrVal {
        match self {
            VBoxError::ExecutionFailed(m) => VBoxErrVal::ExecutionFailed(m@),
            VBoxError::MissingArgument(m) => VBoxErrVal::MissingArgument(m@),
            VBoxError::InvalidArgument(m) => VBoxErrVal::InvalidArgument(m@),
            VBoxError::NotInstalled(m) => VBoxErrVal::NotInstalled(m@),
            VBoxError::OperationFailed(m) => VBoxErrVal::OperationFailed(m@),
            VBoxError::ParseError(m) => VBoxErrVal::ParseError(m@),
        }
    }
}

/// The text of an error, over its model.
pub open spec fn spec_message(e: VBoxErrVal) -> Seq<char> {
    match e {
        VBoxErrVal::ExecutionFailed(m) => "VBoxManage execution failed: "@ + m,
        VBoxErrVal::MissingArgument(m) => "Missing required argument: "@ + m,
        VBoxErrVal::InvalidArgument(m) => "Invalid argument value: "@ + m,
        VBoxErrVal::NotInstalled(m) => "VirtualBox not found or not working: "@ + m,
        VBoxErrVal::OperationFailed(m) => "VM operation failed: "@ + m,
        VBoxErrVal::ParseError(m) => "Parse error: "@ + m,
    }
}

impl VBoxError {
    /// The error rendered as one line of text.
    pub fn message(&self) -> (r: String)
        ensures
            r@ == match self {
                VBoxError::ExecutionFailed(m) => "VBoxManage execution failed: "@ + m@,
                VBoxError::MissingArgument(m) => "Missing required argument: "@ + m@,
                VBoxError::InvalidArgument(m) => "Invalid argument value: "@ + m@,
                VBoxError::NotInstalled(m) => "VirtualBox not found or not working: "@ + m@,
                VBoxError::OperationFailed(m) => "VM operation failed: "@ + m@,
                VBoxError::ParseError(m) => "Parse error: "@ + m@,
            },
    {
        match self {
            VBoxError::ExecutionFailed(m) => with_prefix("VBoxManage execution failed: ", m),
            VBoxError::MissingArgument(m) => with_prefix("Missing required argument: ", m),
            VBoxError::InvalidArgument(m) => with_prefix("Invalid argument value: ", m),
            VBoxError::NotInstalled(m) => with_prefix("VirtualBox not found or not working: ", m),
            VBoxError::OperationFailed(m) => with_prefix("VM operation failed: ", m),
            VBoxError::ParseError(m) => with_prefix("Parse error: ", m),
        }
    }
}

/// The prefix followed by the message.
fn with_prefix(prefix: &str, msg: &String) -> (r: String)
    ensures
        r@ == prefix@ + msg@,
{
    let mut s = prefix.to_owned();
    s.append(msg.as_str());
    s
}

} // verus!
