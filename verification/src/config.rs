//! What the relay is started with.

use vstd::prelude::*;
use vstd::string::StrSliceExecFns;

use crate::client::{InfClient, WRITE_API};
use crate::precision::Precision;
use crate::queue::HandoffQueue;
use crate::transport::{authorization_text, header_text_ok};
use crate::worker::{DeliveryWorker, WorkerState};

verus! {

/// Whether `text` ends in `suffix`.
pub open spec fn has_suffix(text: Seq<char>, suffix: Seq<char>) -> bool {
    text.len() >= suffix.len() && text.subrange(text.len() - suffix.len(), text.len() as int)
        == suffix
}

/// Decides whether `text` ends in `suffix`, character by character.
pub fn ends_with(text: &str, suffix: &str) -> (ends: bool)
    ensures
        ends == has_suffix(text@, suffix@),
{
    let length = text.unicode_len();
    let width = suffix.unicode_len();
    if length < width {
        return false;
    }
    let start = length - width;
    let ghost tail = text@.subrange(start as int, length as int);
    let mut i: usize = 0;
    while i < width
        invariant
            i <= width,
            length == text@.len(),
            width == suffix@.len(),
            start == length - width,
            tail == text@.subrange(start as int, length as int),
            forall|j: int| 0 <= j < i ==> tail[j] == suffix@[j],
        decreases width - i,
    {
        if text.get_char(start + i) != suffix.get_char(i) {
            assert(tail[i as int] != suffix@[i as int]);
            return false;
        }
        i += 1;
    }
    assert(tail =~= suffix@);
    true
}

/// The settings of a relay: where the database is, for whom and with what
/// token to write, and into which bucket.
pub struct Config {
    /// The address of the database server, without the path of an endpoint.
    pub server_url: String,
    /// The organization to write for.
    pub org: String,
    /// The API token to present. A secret.
    pub api_token: String,
    /// The bucket to write into.
    pub bucket: String,
}

impl Config {
    /// Whether the settings are complete: no field is empty, and the server's
    /// address does not already end in the path of the write endpoint.
    pub open spec fn complete(self) -> bool {
        &&& self.server_url@.len() > 0
        &&& self.org@.len() > 0
        &&& self.api_token@.len() > 0
        &&& self.bucket@.len() > 0
        &&& !has_suffix(self.server_url@, WRITE_API@)
    }

    /// Whether a relay can be started with the settings: they are complete,
    /// and the token can be sent in a header.
    pub open spec fn usable(self) -> bool {
        self.complete() && header_text_ok(authorization_text(self.api_token@))
    }

    /// Decides whether a relay can be started with the settings.
    pub fn validate(&self) -> (usable: bool)
        ensures
            usable == self.usable(),
    {
        !self.server_url.as_str().is_empty() && !self.org.as_str().is_empty()
            && !self.api_token.as_str().is_empty() && !self.bucket.as_str().is_empty()
            && !ends_with(self.server_url.as_str(), WRITE_API) && InfClient::accepts(
            self.api_token.as_str(),
        )
    }

    /// Starts a relay: the worker, running, with a client for the server and
    /// the bucket of the settings, and the queue, empty and open, with the
    /// capacity asked for. The writes announce no precision, which is to say
    /// nanoseconds.
    pub fn start(self, capacity: usize) -> (relay: (DeliveryWorker, HandoffQueue))
        requires
            self.usable(),
            capacity > 0,
        ensures
            relay.0.state() == WorkerState::Running,
            relay.0.bucket() == self.bucket@,
            relay.0.client().server_url() == self.server_url@,
            relay.0.client().org() == self.org@,
            relay.0.client().authorization() == authorization_text(self.api_token@),
            relay.0.client().write_precision() == Precision::NS,
            relay.1@ == Seq::<Seq<char>>::empty(),
            relay.1.capacity() == capacity,
            !relay.1.is_closed(),
    {
        let client = InfClient::new(self.server_url, self.api_token, self.org).precision(
            Precision::NS,
        ).build();
        (DeliveryWorker::new(client, self.bucket), HandoffQueue::new(capacity))
    }
}

} // verus!
