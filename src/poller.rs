//! The decisions of the poll loop: whether a fetched page calls for an
//! announcement, and what the announcement does to the channel.
//!
//! Every fingerprint obtained is recorded at once, so one post is announced at
//! most once: where the channel is missing or its topic is malformed, the
//! announcement of that post is dropped, not retried.
use vstd::prelude::*;

use crate::fingerprint::{extract_fingerprint, first_version, PollError};
use crate::topic::{opt_text, rewrite_topic, rewritten_topic, POST_URL};

verus! {

/// What one poll found.
#[derive(Debug, Clone, PartialEq, Eq)]
pub enum Poll {
    /// No fingerprint was obtained; the state is unchanged.
    Failed(PollError),
    /// The first fingerprint: it becomes the baseline, with no announcement.
    Baseline,
    /// The fingerprint is the one seen last.
    Unchanged,
    /// A new fingerprint, to be announced.
    Changed(String),
}

/// What to do in the channel about a new fingerprint.
#[derive(Debug, Clone, PartialEq, Eq)]
pub enum Notice {
    /// The channel was not found: nothing is sent.
    ChannelMissing,
    /// The channel topic, given here as it stands, has too few fields: it is
    /// left as it is and nothing is sent.
    MalformedTopic(String),
    /// Set the channel topic to `topic` and send `message` to the channel.
    Announce { topic: String, message: String },
}

/// Whether seeing `fingerprint` after `last` calls for an announcement: only
/// where there was an earlier fingerprint and it differs.
pub open spec fn notifies(last: Option<Seq<char>>, fingerprint: Seq<char>) -> bool {
    last matches Some(prev) && prev != fingerprint
}

/// The last fingerprint once `fingerprint` has been seen after `last`: every
/// fingerprint obtained replaces the one before, whatever became of its
/// announcement.
pub open spec fn after_observe(last: Option<Seq<char>>, fingerprint: Seq<char>) -> Option<
    Seq<char>,
> {
    Some(fingerprint)
}

/// The message that announces the post `fingerprint`.
pub open spec fn notice_message(fingerprint: Seq<char>) -> Seq<char> {
    "New Alt-F4 facts: "@ + fingerprint + " "@ + POST_URL@
}

/// Whether `needle` occurs in `hay` as a contiguous piece.
pub open spec fn occurs_in(needle: Seq<char>, hay: Seq<char>) -> bool {
    exists|i: int|
        0 <= i && i + needle.len() <= hay.len() && #[trigger] hay.subrange(i, i + needle.len())
            == needle
}

/// The first fingerprint seen calls for no announcement, whatever it is.
pub proof fn baseline_is_quiet(fingerprint: Seq<char>)
    ensures
        !notifies(None, fingerprint),
{
}

/// Seeing a fingerprint right after seeing the same one calls for no
/// announcement, whatever was seen before.
pub proof fn repeat_is_quiet(last: Option<Seq<char>>, fingerprint: Seq<char>)
    ensures
        !notifies(after_observe(last, fingerprint), fingerprint),
{
}

/// Seeing a fingerprint other than the one seen last calls for an
/// announcement.
pub proof fn change_is_announced(previous: Seq<char>, fingerprint: Seq<char>)
    requires
        previous != fingerprint,
    ensures
        notifies(after_observe(None, previous), fingerprint),
{
}

/// The announcement message names both the new fingerprint and the post's
/// address.
pub proof fn message_names_post(fingerprint: Seq<char>)
    ensures
        occurs_in(fingerprint, notice_message(fingerprint)),
        occurs_in(POST_URL@, notice_message(fingerprint)),
{
    let head: Seq<char> = "New Alt-F4 facts: "@;
    let msg = notice_message(fingerprint);
    assert(msg.subrange(head.len() as int, (head.len() + fingerprint.len()) as int) =~= fingerprint);
    assert(msg.subrange(msg.len() - POST_URL@.len(), msg.len() as int) =~= POST_URL@);
}

/// The poll loop's memory: the fingerprint seen last, if any.
pub struct Poller {
    pub last: Option<String>,
}

impl Poller {
    /// The fingerprint seen last, as text.
    pub open spec fn last_seen(&self) -> Option<Seq<char>> {
        opt_text(self.last)
    }

    /// A poller that has seen nothing yet.
    pub fn new() -> (p: Poller)
        ensures
            p.last_seen() is None,
    {
        Poller { last: None }
    }

    /// Records `fingerprint` and says whether it calls for an announcement.
    pub fn observe(&mut self, fingerprint: String) -> (d: Poll)
        ensures
            final(self).last_seen() == after_observe(old(self).last_seen(), fingerprint@),
            d is Baseline <==> old(self).last_seen() is None,
            d is Unchanged <==> old(self).last_seen() == Some(fingerprint@),
            d is Changed <==> notifies(old(self).last_seen(), fingerprint@),
            d matches Poll::Changed(f) ==> f@ == fingerprint@,
            !(d is Failed),
    {
        let d = match &self.last {
            None => Poll::Baseline,
            Some(prev) => {
                if *prev == fingerprint {
                    Poll::Unchanged
                } else {
                    Poll::Changed(fingerprint.clone())
                }
            },
        };
        self.last = Some(fingerprint);
        d
    }

    /// Handles the outcome of one fetch of the front page: the page's text, or
    /// why it could not be had.
    pub fn on_fetch(&mut self, fetched: Result<String, String>) -> (d: Poll)
        ensures
            fetched matches Err(e) ==> d == Poll::Failed(PollError::Fetch(e)),
            fetched matches Ok(page) ==> match first_version(page@) {
                None => d == Poll::Failed(PollError::NoPost),
                Some(fp) => final(self).last_seen() == after_observe(old(self).last_seen(), fp)
                    && (d is Baseline <==> old(self).last_seen() is None) && (d is Unchanged
                    <==> old(self).last_seen() == Some(fp)) && (d is Changed <==> notifies(
                    old(self).last_seen(),
                    fp,
                )) && (d matches Poll::Changed(f) ==> f@ == fp) && !(d is Failed),
            },
            d is Failed ==> final(self).last_seen() == old(self).last_seen(),
    {
        match fetched {
            Err(e) => Poll::Failed(PollError::Fetch(e)),
            Ok(page) => match extract_fingerprint(page.as_str()) {
                Ok(fp) => self.observe(fp),
                Err(e) => Poll::Failed(e),
            },
        }
    }
}

/// The message that announces the post `fingerprint`.
pub fn announcement_message(fingerprint: &str) -> (r: String)
    ensures
        r@ == notice_message(fingerprint@),
{
    let mut msg = "New Alt-F4 facts: ".to_owned();
    msg.append(fingerprint);
    msg.append(" ");
    msg.append(POST_URL);
    msg
}

/// What to do in the channel about the new fingerprint `fingerprint`, given the
/// channel's topic, or `None` where the channel was not found.
pub fn notice_for(fingerprint: &str, topic: Option<String>) -> (n: Notice)
    ensures
        topic is None <==> n is ChannelMissing,
        topic matches Some(t) ==> match rewritten_topic(t@, fingerprint@) {
            None => n == Notice::MalformedTopic(t),
            Some(new_topic) => n matches Notice::Announce { topic, message } && topic@
                == new_topic && message@ == notice_message(fingerprint@),
        },
{
    match topic {
        None => Notice::ChannelMissing,
        Some(t) => match rewrite_topic(t.as_str(), fingerprint) {
            None => Notice::MalformedTopic(t),
            Some(new_topic) => Notice::Announce {
                topic: new_topic,
                message: announcement_message(fingerprint),
            },
        },
    }
}

} // verus!
