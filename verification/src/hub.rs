//! The observer hub's policies: normalizing observer input into commands,
//! and publishing lines on a broadcast topic without ever blocking.

use vstd::prelude::*;
use vstd::string::StringExecFns;

verus! {

/// What `str::trim` returns for a given character sequence: the sequence
/// without its leading and trailing whitespace.
pub uninterp spec fn trimmed_of(s: Seq<char>) -> Seq<char>;

/// Relies on `str::trim`: the line without leading and trailing whitespace, a
/// function of the characters alone; it never grows the line, and an empty
/// line stays empty.
#[verifier::external_body]
fn trim_line(s: &str) -> (r: &str)
    ensures
        r@ == trimmed_of(s@),
        r@.len() <= s@.len(),
{
    s.trim()
}

/// Observer input policy: a received line is trimmed; an empty result is
/// discarded, a non-empty one becomes the command forwarded to every
/// instrument.
pub fn normalize_command(line: &str) -> (r: Option<String>)
    ensures
        trimmed_of(line@).len() == 0 ==> r is None,
        trimmed_of(line@).len() > 0 ==> (r matches Some(c) && c@ == trimmed_of(line@)),
{
    let trimmed = trim_line(line);
    if trimmed.is_empty() {
        None
    } else {
        Some(String::from_str(trimmed))
    }
}

/// Model of a broadcast topic with bounded retained history: everything ever
/// published, and the retention capacity.  Each subscriber holds its own
/// cursor, the index of the next value it will take; the topic itself knows
/// nothing of its subscribers.  The running process realizes this model with
/// tokio's broadcast channel, used through `publish_line` below.
pub struct TopicModel {
    pub published: Seq<Seq<char>>,
    pub capacity: int,
}

/// Publishing appends to the history, whatever the subscribers do.
pub open spec fn topic_publish(t: TopicModel, v: Seq<char>) -> TopicModel {
    TopicModel { published: t.published.push(v), capacity: t.capacity }
}

/// Publishing a whole run of values, in order.
pub open spec fn topic_publish_all(t: TopicModel, vs: Seq<Seq<char>>) -> TopicModel
    decreases vs.len(),
{
    if vs.len() == 0 {
        t
    } else {
        topic_publish_all(topic_publish(t, vs[0]), vs.drop_first())
    }
}

/// A fresh subscriber's cursor: everything already published lies behind it.
pub open spec fn topic_subscribe(t: TopicModel) -> int {
    t.published.len() as int
}

/// What a subscriber standing at `cursor` can still receive: the values from
/// its cursor on, but never more than the `capacity` most recent ones -- a
/// subscriber that fell further behind has lost the oldest values, and the
/// publisher was never held back by it.
pub open spec fn topic_receivable(t: TopicModel, cursor: int) -> Seq<Seq<char>> {
    let lo = if t.published.len() - t.capacity > cursor {
        t.published.len() - t.capacity
    } else {
        cursor
    };
    t.published.skip(lo)
}

/// Law: publishing never depends on subscribers: it always succeeds, appends
/// exactly the one value, and leaves the capacity untouched.
pub proof fn lemma_publish_always_appends(t: TopicModel, v: Seq<char>)
    ensures
        topic_publish(t, v).published =~= t.published.push(v),
        topic_publish(t, v).capacity == t.capacity,
{
}

proof fn lemma_publish_all_appends(t: TopicModel, vs: Seq<Seq<char>>)
    ensures
        topic_publish_all(t, vs).published =~~= t.published + vs,
        topic_publish_all(t, vs).capacity == t.capacity,
    decreases vs.len(),
{
    if vs.len() == 0 {
        assert(t.published + vs =~~= t.published);
    } else {
        lemma_publish_all_appends(topic_publish(t, vs[0]), vs.drop_first());
        assert(t.published.push(vs[0]) + vs.drop_first() =~~= t.published + vs);
    }
}

/// Law: an observer that subscribes after any number of values were broadcast
/// receives none of them; after any further run of values, no longer than the
/// retained history, it can receive exactly that run.
pub proof fn lemma_late_subscriber_sees_only_later(t: TopicModel, vs: Seq<Seq<char>>)
    requires
        0 <= vs.len() <= t.capacity,
    ensures
        topic_receivable(t, topic_subscribe(t)) =~~= Seq::<Seq<char>>::empty(),
        topic_receivable(topic_publish_all(t, vs), topic_subscribe(t)) =~~= vs,
{
    lemma_publish_all_appends(t, vs);
    assert((t.published + vs).skip(t.published.len() as int) =~~= vs);
}

#[verifier::external_type_specification]
#[verifier::external_body]
#[verifier::reject_recursive_types(T)]
pub struct ExBroadcastSender<T>(tokio::sync::broadcast::Sender<T>);

#[verifier::external_type_specification]
#[verifier::external_body]
#[verifier::reject_recursive_types(T)]
pub struct ExBroadcastSendError<T>(tokio::sync::broadcast::error::SendError<T>);

/// Relies on tokio's `broadcast::Sender::send`: a synchronous call that never
/// waits for subscribers; it returns the number of receivers the value went
/// to, at least one, or gives the value back as an error when there are none.
#[verifier::external_body]
fn send_line(tx: &tokio::sync::broadcast::Sender<String>, line: String) -> (r: Result<
    usize,
    tokio::sync::broadcast::error::SendError<String>,
>)
    ensures
        r matches Ok(n) ==> n >= 1,
{
    tx.send(line)
}

/// Publishes one line on a broadcast topic.  Publishing never blocks and
/// never fails: with no subscribers the line is simply dropped and the
/// publisher carries on.  Returns how many subscribers took the line, or
/// None when there were none.
pub fn publish_line(tx: &tokio::sync::broadcast::Sender<String>, line: String) -> (r: Option<
    usize,
>)
    ensures
        r matches Some(n) ==> n >= 1,
{
    match send_line(tx, line) {
        Ok(n) => Some(n),
        Err(_) => None,
    }
}

} // verus!
