//! The conversation between the store and its host.
//!
//! The store decides; the host acts. A load or a save hands the host one
//! request at a time, and goes on when it is told how the request ended.
//! Files are named within the storage directory, which only the host knows.

use crate::error::StoreError;
use vstd::prelude::*;

verus! {

/// What the store asks its host to do.
#[derive(Clone, Debug, PartialEq, Eq)]
pub enum Request {
    /// Find where the workspace file lives, and make its directory and the
    /// directories above it if they are missing.
    Locate,
    /// Say whether a file exists.
    Probe { name: String },
    /// Read a whole file as text.
    Read { name: String },
    /// Read the clock.
    Clock,
    /// Write a whole file, new or not.
    Write { name: String, text: String },
    /// Move a file to another name.
    Rename { from: String, to: String },
    /// Delete a file.
    Remove { name: String },
}

pub ghost enum RequestView {
    Locate,
    Probe { name: Seq<char> },
    Read { name: Seq<char> },
    Clock,
    Write { name: Seq<char>, text: Seq<char> },
    Rename { from: Seq<char>, to: Seq<char> },
    Remove { name: Seq<char> },
}

impl View for Request {
    type V = RequestView;

    open spec fn view(&self) -> RequestView {
        match self {
            Request::Locate => RequestView::Locate,
            Request::Probe { name } => RequestView::Probe { name: name@ },
            Request::Read { name } => RequestView::Read { name: name@ },
            Request::Clock => RequestView::Clock,
            Request::Write { name, text } => RequestView::Write { name: name@, text: text@ },
            Request::Rename { from, to } => RequestView::Rename { from: from@, to: to@ },
            Request::Remove { name } => RequestView::Remove { name: name@ },
        }
    }
}

/// How a request ended. A failure carries the host's message.
#[derive(Debug, PartialEq, Eq)]
pub enum Reply {
    /// The place is known. `Ok(true)`: the file lies in a directory, which
    /// now exists. `Ok(false)`: its path names no directory.
    Located(Result<bool, String>),
    /// Whether the file exists.
    Probed(bool),
    /// The text of the file.
    Read(Result<String, String>),
    /// Milliseconds since the epoch; zero for a clock set before it.
    Clock(u128),
    Written(Result<(), String>),
    Renamed(Result<(), String>),
    Removed(Result<(), String>),
}

pub ghost enum ReplyView {
    Located(Result<bool, Seq<char>>),
    Probed(bool),
    Read(Result<Seq<char>, Seq<char>>),
    Clock(u128),
    Written(Result<(), Seq<char>>),
    Renamed(Result<(), Seq<char>>),
    Removed(Result<(), Seq<char>>),
}

/// The view of an outcome without a value.
pub open spec fn ended(r: Result<(), String>) -> Result<(), Seq<char>> {
    match r {
        Ok(_) => Ok(()),
        Err(m) => Err(m@),
    }
}

impl View for Reply {
    type V = ReplyView;

    open spec fn view(&self) -> ReplyView {
        match self {
            Reply::Located(r) => ReplyView::Located(
                match r {
                    Ok(b) => Ok(*b),
                    Err(m) => Err(m@),
                },
            ),
            Reply::Probed(b) => ReplyView::Probed(*b),
            Reply::Read(r) => ReplyView::Read(
                match r {
                    Ok(t) => Ok(t@),
                    Err(m) => Err(m@),
                },
            ),
            Reply::Clock(millis) => ReplyView::Clock(*millis),
            Reply::Written(r) => ReplyView::Written(ended(*r)),
            Reply::Renamed(r) => ReplyView::Renamed(ended(*r)),
            Reply::Removed(r) => ReplyView::Removed(ended(*r)),
        }
    }
}

/// A failure, by kind. An encoding failure has no message here: its wording
/// is the printer's.
pub ghost enum Failure {
    PathResolution(Seq<char>),
    Io(Seq<char>),
    Encode,
}

impl View for StoreError {
    type V = Failure;

    open spec fn view(&self) -> Failure {
        match self {
            StoreError::PathResolution(m) => Failure::PathResolution(m@),
            StoreError::Io(m) => Failure::Io(m@),
            StoreError::Encode(_) => Failure::Encode,
        }
    }
}

/// The failure of an operation whose host answered something it was not
/// asked.
pub open spec fn stray_reply() -> Failure {
    Failure::Io("the reply does not answer the request"@)
}

/// The error for a reply that does not answer the pending request.
pub fn stray_reply_error() -> (e: StoreError)
    ensures
        e@ == stray_reply(),
{
    StoreError::Io("the reply does not answer the request".to_owned())
}

} // verus!
