//! The five failure classes and their rendering.
use vstd::prelude::*;
use crate::text::{describe, detail_text};

verus! {

/// The class of a failure, without its detail.
#[derive(Clone, Copy, Debug, PartialEq, Eq, Structural)]
pub enum ErrorKind {
    /// The protocol engine rejected the request for a reason that has no class of its own.
    Generic,
    /// The request named a group that is not registered.
    GroupNotFound,
    /// Key generation, key package validation or another primitive failed.
    Crypto,
    /// Durable storage could not be reached.
    Io,
    /// Wire text, wire bytes or a payload could not be decoded or encoded.
    Serialization,
}

/// A failure of a client operation: its class and a detail a person can read.
#[derive(Debug, PartialEq, Eq)]
pub enum MlsError {
    Generic { msg: String },
    GroupNotFound { group_id: String },
    CryptoError { msg: String },
    IoError { msg: String },
    SerializationError { msg: String },
}

/// The words that open the rendering of a failure of the given class.
pub open spec fn heading(kind: ErrorKind) -> Seq<char> {
    match kind {
        ErrorKind::Generic => "Generic MLS error: "@,
        ErrorKind::GroupNotFound => "Group not found: "@,
        ErrorKind::Crypto => "Crypto error: "@,
        ErrorKind::Io => "IO error: "@,
        ErrorKind::Serialization => "Serialization error: "@,
    }
}

impl MlsError {
    /// The class of this failure.
    pub open spec fn spec_kind(&self) -> ErrorKind {
        match self {
            MlsError::Generic { .. } => ErrorKind::Generic,
            MlsError::GroupNotFound { .. } => ErrorKind::GroupNotFound,
            MlsError::CryptoError { .. } => ErrorKind::Crypto,
            MlsError::IoError { .. } => ErrorKind::Io,
            MlsError::SerializationError { .. } => ErrorKind::Serialization,
        }
    }

    /// The detail of this failure: the group identifier of a `GroupNotFound`,
    /// the message of every other class.
    pub open spec fn spec_detail(&self) -> Seq<char> {
        match self {
            MlsError::Generic { msg } => msg@,
            MlsError::GroupNotFound { group_id } => group_id@,
            MlsError::CryptoError { msg } => msg@,
            MlsError::IoError { msg } => msg@,
            MlsError::SerializationError { msg } => msg@,
        }
    }

    /// The full rendering: the heading of the class, then the detail.
    pub open spec fn rendering(&self) -> Seq<char> {
        heading(self.spec_kind()) + self.spec_detail()
    }

    /// True when this failure has the given class and detail.
    pub open spec fn is(&self, kind: ErrorKind, detail: Seq<char>) -> bool {
        self.spec_kind() == kind && self.spec_detail() == detail
    }

    /// True when this failure has the given class and its detail says that
    /// `context` was attempted, whatever it names as the fault.
    pub open spec fn reports(&self, kind: ErrorKind, context: Seq<char>) -> bool {
        self.spec_kind() == kind && exists|fault: Seq<char>|
            self.spec_detail() == detail_text(context, fault)
    }

    /// Builds the failure of the given class for an attempt and its fault.
    pub fn report(kind: ErrorKind, context: &str, fault: &str) -> (e: MlsError)
        ensures
            e.is(kind, detail_text(context@, fault@)),
            e.reports(kind, context@),
    {
        MlsError::of_kind(kind, describe(context, fault))
    }

    pub fn generic(msg: String) -> (e: MlsError)
        ensures
            e.is(ErrorKind::Generic, msg@),
    {
        MlsError::Generic { msg }
    }

    pub fn crypto(msg: String) -> (e: MlsError)
        ensures
            e.is(ErrorKind::Crypto, msg@),
    {
        MlsError::CryptoError { msg }
    }

    pub fn io(msg: String) -> (e: MlsError)
        ensures
            e.is(ErrorKind::Io, msg@),
    {
        MlsError::IoError { msg }
    }

    pub fn serialization(msg: String) -> (e: MlsError)
        ensures
            e.is(ErrorKind::Serialization, msg@),
    {
        MlsError::SerializationError { msg }
    }

    pub fn group_not_found(group_id: &str) -> (e: MlsError)
        ensures
            e.is(ErrorKind::GroupNotFound, group_id@),
    {
        MlsError::GroupNotFound { group_id: String::from_str(group_id) }
    }

    /// Builds the failure of the given class with the given detail.
    pub fn of_kind(kind: ErrorKind, detail: String) -> (e: MlsError)
        ensures
            e.is(kind, detail@),
    {
        match kind {
            ErrorKind::Generic => MlsError::Generic { msg: detail },
            ErrorKind::GroupNotFound => MlsError::GroupNotFound { group_id: detail },
            ErrorKind::Crypto => MlsError::CryptoError { msg: detail },
            ErrorKind::Io => MlsError::IoError { msg: detail },
            ErrorKind::Serialization => MlsError::SerializationError { msg: detail },
        }
    }

    #[verifier::when_used_as_spec(spec_kind)]
    pub fn kind(&self) -> (k: ErrorKind)
        ensures
            k == self.spec_kind(),
    {
        match self {
            MlsError::Generic { .. } => ErrorKind::Generic,
            MlsError::GroupNotFound { .. } => ErrorKind::GroupNotFound,
            MlsError::CryptoError { .. } => ErrorKind::Crypto,
            MlsError::IoError { .. } => ErrorKind::Io,
            MlsError::SerializationError { .. } => ErrorKind::Serialization,
        }
    }

    pub fn detail(&self) -> (d: &str)
        ensures
            d@ == self.spec_detail(),
    {
        match self {
            MlsError::Generic { msg } => msg.as_str(),
            MlsError::GroupNotFound { group_id } => group_id.as_str(),
            MlsError::CryptoError { msg } => msg.as_str(),
            MlsError::IoError { msg } => msg.as_str(),
            MlsError::SerializationError { msg } => msg.as_str(),
        }
    }

    /// Renders the failure for a person: heading, then detail.
    pub fn message(&self) -> (text: String)
        ensures
            text@ == self.rendering(),
    {
        let head: &str = match self {
            MlsError::Generic { .. } => "Generic MLS error: ",
            MlsError::GroupNotFound { .. } => "Group not found: ",
            MlsError::CryptoError { .. } => "Crypto error: ",
            MlsError::IoError { .. } => "IO error: ",
            MlsError::SerializationError { .. } => "Serialization error: ",
        };
        let mut text = String::from_str(head);
        text.append(self.detail());
        text
    }
}

/// Gives an engine result its failure class: a success passes through, a
/// fault becomes the failure of the given class for the given attempt.
pub fn lift<T>(outcome: Result<T, String>, kind: ErrorKind, context: &str) -> (r: Result<
    T,
    MlsError,
>)
    ensures
        outcome matches Ok(v) ==> r == Ok::<T, MlsError>(v),
        outcome matches Err(fault) ==> r is Err && r->Err_0.is(
            kind,
            detail_text(context@, fault@),
        ) && r->Err_0.reports(kind, context@),
{
    match outcome {
        Ok(v) => Ok(v),
        Err(fault) => Err(MlsError::report(kind, context, fault.as_str())),
    }
}

} // verus!
