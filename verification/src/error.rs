//! Error handling for the framework.
//!
//! Errors are grouped by domain; every variant carries a descriptive
//! message.

use vstd::prelude::*;

verus! {

/// Framework error types, one variant per domain.
#[derive(Debug)]
pub enum RobotError {
    /// Configuration errors
    Config(String),
    /// Node-related errors
    Node(String),
    /// Message handling errors
    Message(String),
    /// Service errors
    Service(String),
    /// Memory management errors
    Memory(String),
    /// Time-related errors
    Time(String),
    /// Transform errors
    Transform(String),
    /// Action execution errors
    Action(String),
    /// Logging errors
    Logging(String),
    /// Debug system errors
    Debug(String),
    /// Visualization errors
    Visualization(String),
    /// Profiling errors
    Profiling(String),
    /// I/O errors
    Io(String),
    /// Serialization errors
    Serialization(String),
    /// Other errors
    Other(String),
}

impl Clone for RobotError {
    fn clone(&self) -> (res: Self)
        ensures
            res == *self,
    {
        match self {
            RobotError::Config(msg) => RobotError::Config(msg.clone()),
            RobotError::Node(msg) => RobotError::Node(msg.clone()),
            RobotError::Message(msg) => RobotError::Message(msg.clone()),
            RobotError::Service(msg) => RobotError::Service(msg.clone()),
            RobotError::Memory(msg) => RobotError::Memory(msg.clone()),
            RobotError::Time(msg) => RobotError::Time(msg.clone()),
            RobotError::Transform(msg) => RobotError::Transform(msg.clone()),
            RobotError::Action(msg) => RobotError::Action(msg.clone()),
            RobotError::Logging(msg) => RobotError::Logging(msg.clone()),
            RobotError::Debug(msg) => RobotError::Debug(msg.clone()),
            RobotError::Visualization(msg) => RobotError::Visualization(msg.clone()),
            RobotError::Profiling(msg) => RobotError::Profiling(msg.clone()),
            RobotError::Io(msg) => RobotError::Io(msg.clone()),
            RobotError::Serialization(msg) => RobotError::Serialization(msg.clone()),
            RobotError::Other(msg) => RobotError::Other(msg.clone()),
        }
    }
}

impl RobotError {
    /// The message carried by the error, whatever its domain.
    pub open spec fn spec_message(&self) -> Seq<char> {
        match *self {
            RobotError::Config(msg) => msg@,
            RobotError::Node(msg) => msg@,
            RobotError::Message(msg) => msg@,
            RobotError::Service(msg) => msg@,
            RobotError::Memory(msg) => msg@,
            RobotError::Time(msg) => msg@,
            RobotError::Transform(msg) => msg@,
            RobotError::Action(msg) => msg@,
            RobotError::Logging(msg) => msg@,
            RobotError::Debug(msg) => msg@,
            RobotError::Visualization(msg) => msg@,
            RobotError::Profiling(msg) => msg@,
            RobotError::Io(msg) => msg@,
            RobotError::Serialization(msg) => msg@,
            RobotError::Other(msg) => msg@,
        }
    }

    /// The message carried by the error.
    pub fn message(&self) -> (r: &str)
        ensures
            r@ == self.spec_message(),
    {
        match self {
            RobotError::Config(msg) => msg.as_str(),
            RobotError::Node(msg) => msg.as_str(),
            RobotError::Message(msg) => msg.as_str(),
            RobotError::Service(msg) => msg.as_str(),
            RobotError::Memory(msg) => msg.as_str(),
            RobotError::Time(msg) => msg.as_str(),
            RobotError::Transform(msg) => msg.as_str(),
            RobotError::Action(msg) => msg.as_str(),
            RobotError::Logging(msg) => msg.as_str(),
            RobotError::Debug(msg) => msg.as_str(),
            RobotError::Visualization(msg) => msg.as_str(),
            RobotError::Profiling(msg) => msg.as_str(),
            RobotError::Io(msg) => msg.as_str(),
            RobotError::Serialization(msg) => msg.as_str(),
            RobotError::Other(msg) => msg.as_str(),
        }
    }
}

} // verus!
