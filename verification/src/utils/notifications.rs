//! Events that the download machinery reports for observability.

use vstd::prelude::*;

use crate::utils::decimal::decimal_rep;
use crate::utils::decimal::u64_to_string;
use crate::utils::notify::NotificationLevel;

verus! {

/// An observability event; carried to the sink, never inspected here.
#[derive(Debug)]
pub enum Notification<'a> {
    /// Received the Content-Length of the to-be downloaded data.
    DownloadContentLengthReceived(u64),
    /// Received some data.
    DownloadDataReceived(&'a [u8]),
    /// Download has finished.
    DownloadFinished,
    ResumingPartialDownload,
}

impl<'a> Notification<'a> {
    /// The severity at which this event is reported.
    pub open spec fn spec_level(&self) -> NotificationLevel {
        NotificationLevel::Verbose
    }

    /// The one-line rendering of this event.
    pub open spec fn spec_message(&self) -> Seq<char> {
        match self {
            Notification::DownloadContentLengthReceived(len) => "download size is: '"@
                + decimal_rep(*len as nat) + "'"@,
            Notification::DownloadDataReceived(data) => "received some data of size "@
                + decimal_rep(data@.len()),
            Notification::DownloadFinished => "download finished"@,
            Notification::ResumingPartialDownload => "resuming partial download"@,
        }
    }

    pub fn level(&self) -> (r: NotificationLevel)
        ensures
            r == self.spec_level(),
    {
        match self {
            Notification::DownloadContentLengthReceived(_)
            | Notification::DownloadDataReceived(_)
            | Notification::DownloadFinished
            | Notification::ResumingPartialDownload => NotificationLevel::Verbose,
        }
    }

    /// Renders the event as its one-line message.
    pub fn message(&self) -> (r: String)
        ensures
            r@ == self.spec_message(),
    {
        match self {
            Notification::DownloadContentLengthReceived(len) => {
                let head = "download size is: '";
                let mid = u64_to_string(*len);
                head.to_owned().concat(mid.as_str()).concat("'")
            },
            Notification::DownloadDataReceived(data) => {
                let head = "received some data of size ";
                let len64: u64 = data.len() as u64;
                let mid = u64_to_string(len64);
                head.to_owned().concat(mid.as_str())
            },
            Notification::DownloadFinished => "download finished".to_owned(),
            Notification::ResumingPartialDownload => "resuming partial download".to_owned(),
        }
    }
}

} // verus!
