//! Shared types of the feature system: typed value references,
//! feature and plugin errors, and the plugin contract.

use vstd::prelude::*;
use vstd::string::StringExecFns;
use core::marker::PhantomData;

verus! {

/// References a value in a value pool by key, carrying the expected
/// type as a phantom parameter.
#[verifier::reject_recursive_types(T)]
pub struct ValueRef<T> {
    /// The key to look up in the value pool.
    pub key: String,
    pub _phantom: PhantomData<T>,
}

impl<T> ValueRef<T> {
    /// A reference to the pool value under `key`.
    pub fn new(key: &str) -> (r: ValueRef<T>)
        ensures
            r.key@ == key@,
    {
        ValueRef { key: key.to_owned(), _phantom: PhantomData }
    }
}

/// A named, typed argument of a feature operation.
#[verifier::reject_recursive_types(T)]
pub struct TypedArg<T> {
    pub name: String,
    pub value_ref: ValueRef<T>,
}

impl<T> TypedArg<T> {
    /// Binds an argument name to a typed value reference.
    pub fn new(name: &str, value_ref: ValueRef<T>) -> (r: TypedArg<T>)
        ensures
            r.name@ == name@,
            r.value_ref.key@ == value_ref.key@,
    {
        TypedArg { name: name.to_owned(), value_ref }
    }
}

/// Log severities, most severe first.
#[derive(Clone, Copy, PartialEq, Eq, Structural, Debug)]
pub enum LogLevel {
    Error,
    Warn,
    Info,
    Debug,
    Trace,
}

/// Errors of feature execution.
#[derive(Debug)]
pub enum FeatureError {
    ValueNotFound(String),
    InvalidArgument(String),
    ExecutionFailed(String),
    TypeMismatch { expected: String, actual: String },
    ProviderError(String),
}

pub open spec fn type_mismatch_text(expected: Seq<char>, actual: Seq<char>) -> Seq<char> {
    "Type mismatch: expected "@ + expected + ", got "@ + actual
}

impl FeatureError {
    /// The error rendered as one line of text.
    pub fn message(&self) -> (r: String)
        ensures
            r@ == match self {
                FeatureError::ValueNotFound(m) => "Value not found: "@ + m@,
                FeatureError::InvalidArgument(m) => "Invalid argument: "@ + m@,
                FeatureError::ExecutionFailed(m) => "Execution failed: "@ + m@,
                FeatureError::TypeMismatch { expected, actual } => type_mismatch_text(
                    expected@,
                    actual@,
                ),
                FeatureError::ProviderError(m) => "Provider error: "@ + m@,
            },
    {
        match self {
            FeatureError::ValueNotFound(m) => prefixed("Value not found: ", m),
            FeatureError::InvalidArgument(m) => prefixed("Invalid argument: ", m),
            FeatureError::ExecutionFailed(m) => prefixed("Execution failed: ", m),
            FeatureError::TypeMismatch { expected, actual } => {
                let mut s = String::from_str("Type mismatch: expected ");
                s.append(expected.as_str());
                s.append(", got ");
                s.append(actual.as_str());
                proof {
                    assert(s@ =~= type_mismatch_text(expected@, actual@));
                }
                s
            },
            FeatureError::ProviderError(m) => prefixed("Provider error: ", m),
        }
    }
}

/// Errors of plugin loading and lifecycle.
#[derive(Debug)]
pub enum PluginError {
    /// The registration entry point reported failure.
    InitializationFailed(String),
    /// The module file, a required symbol, or a usable provider
    /// instance could not be found.
    PluginNotFound(String),
    /// A foreign call failed while the plugin ran.
    ExecutionFailed(String),
    /// An I/O error, carried as text.
    IoError(String),
}

impl PluginError {
    /// The error rendered as one line of text.
    pub fn message(&self) -> (r: String)
        ensures
            r@ == match self {
                PluginError::InitializationFailed(m) => "Initialization failed: "@ + m@,
                PluginError::PluginNotFound(m) => "Plugin not found: "@ + m@,
                PluginError::ExecutionFailed(m) => "Execution failed: "@ + m@,
                PluginError::IoError(m) => "IO error: "@ + m@,
            },
    {
        match self {
            PluginError::InitializationFailed(m) => prefixed("Initialization failed: ", m),
            PluginError::PluginNotFound(m) => prefixed("Plugin not found: ", m),
            PluginError::ExecutionFailed(m) => prefixed("Execution failed: ", m),
            PluginError::IoError(m) => prefixed("IO error: ", m),
        }
    }
}

/// The prefix followed by the message.
fn prefixed(prefix: &str, msg: &String) -> (r: String)
    ensures
        r@ == prefix@ + msg@,
{
    let mut s = prefix.to_owned();
    s.append(msg.as_str());
    s
}

/// What a loaded module must offer: a name, a version, and the
/// features it claims to support. The asynchronous lifecycle around
/// these (initialization against a server context, shutdown) runs in
/// the host, outside this library.
pub trait Plugin {
    /// The name the plugin answers with.
    spec fn spec_name(&self) -> Seq<char>;

    /// The version the plugin answers with.
    spec fn spec_version(&self) -> Seq<char>;

    /// The features the plugin claims, in declaration order.
    spec fn spec_declared_features(&self) -> Seq<Seq<char>>;

    /// The plugin's name.
    fn name(&self) -> (r: &str)
        ensures
            r@ == self.spec_name(),
    ;

    /// The plugin's version.
    fn version(&self) -> (r: &str)
        ensures
            r@ == self.spec_version(),
    ;

    /// The features the plugin claims to support; checked against
    /// what it actually registers.
    fn declared_features(&self) -> (r: Vec<String>)
        ensures
            r.deep_view() == self.spec_declared_features(),
    ;
}

} // verus!
