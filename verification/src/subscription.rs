//! Subscription handling: the [`MessageHandler`] trait, the [`Subscription`]
//! record and the [`SubscriptionOptions`] builder.
use vstd::prelude::*;
use vstd::string::*;

use crate::message::Message;

verus! {

/// A trait for types that can handle AMPS messages.
///
/// It is implemented for closures of the form `FnMut(&Message) + Send`; other
/// types may implement it too.  Implementations must be `Send`, as messages may
/// be delivered on another thread than the one that subscribed.
pub trait MessageHandler: Send {
    /// Whether this handler is ready to take `message`.
    spec fn accepts(&self, message: &Message) -> bool;

    /// Called when a message is received.
    fn on_message(&mut self, message: &Message)
        requires
            old(self).accepts(message),
    ;
}

impl<F> MessageHandler for F where F: FnMut(&Message) + Send {
    /// A closure takes a message where its own precondition admits it.
    open spec fn accepts(&self, message: &Message) -> bool {
        call_requires(*self, (message,))
    }

    /// Runs the closure on the message.
    fn on_message(&mut self, message: &Message)
        ensures
            call_ensures(*old(self), (message,), ()),
    {
        (self)(message);
    }
}

/// The text of an optional string.
pub open spec fn opt_text(s: Option<String>) -> Option<Seq<char>> {
    match s {
        Some(s) => Some(s@),
        None => None,
    }
}

/// The text of an optional string slice.
pub open spec fn opt_str_text(s: Option<&str>) -> Option<Seq<char>> {
    match s {
        Some(s) => Some(s@),
        None => None,
    }
}

/// An optional string's text is present exactly when the string is, and is
/// then the string's characters; the same holds of an optional slice.
pub proof fn lemma_opt_text(s: Option<String>, t: Option<&str>)
    ensures
        opt_text(s) is Some <==> s is Some,
        s matches Some(v) ==> opt_text(s)->0 == v@,
        opt_str_text(t) is Some <==> t is Some,
        t matches Some(v) ==> opt_str_text(t)->0 == v@,
{
}

/// An owned copy of an optional string slice.
fn owned_opt(s: Option<&str>) -> (r: Option<String>)
    ensures
        opt_text(r) == opt_str_text(s),
{
    match s {
        Some(s) => Some(String::from_str(s)),
        None => None,
    }
}

/// Information about an active subscription.
#[derive(Debug, Clone)]
pub struct Subscription {
    /// The subscription ID assigned by AMPS
    pub sub_id: String,
    /// The topic or filter pattern being subscribed to
    pub topic: String,
    /// The filter expression, if any
    pub filter: Option<String>,
}

impl Subscription {
    /// Creates a new Subscription info struct from the subscription ID, the
    /// topic pattern and the optional filter expression.
    pub fn new(sub_id: &str, topic: &str, filter: Option<&str>) -> (s: Subscription)
        ensures
            s.sub_id@ == sub_id@,
            s.topic@ == topic@,
            opt_text(s.filter) == opt_str_text(filter),
            s.filter is Some <==> filter is Some,
            s.filter matches Some(f) ==> f@ == filter->0@,
    {
        Subscription {
            sub_id: String::from_str(sub_id),
            topic: String::from_str(topic),
            filter: owned_opt(filter),
        }
    }
}

/// Options for configuring a subscription.
#[derive(Debug, Clone)]
pub struct SubscriptionOptions {
    /// Filter expression for the subscription
    pub filter: Option<String>,
    /// Additional options string
    pub options: Option<String>,
    /// Timeout in milliseconds
    pub timeout_ms: i32,
    /// Batch size for grouped delivery
    pub batch_size: i32,
    /// Top N limit for SOW queries
    pub top_n: i32,
    /// Ordering specification for SOW queries
    pub order_by: Option<String>,
}

/// The options as plain values: filter, options, timeout, batch size, top N, ordering.
pub type OptionsView = (Option<Seq<char>>, Option<Seq<char>>, i32, i32, i32, Option<Seq<char>>);

impl View for SubscriptionOptions {
    type V = OptionsView;

    open spec fn view(&self) -> OptionsView {
        (
            opt_text(self.filter),
            opt_text(self.options),
            self.timeout_ms,
            self.batch_size,
            self.top_n,
            opt_text(self.order_by),
        )
    }
}

impl Default for SubscriptionOptions {
    /// No filter, options or ordering; zero timeout, batch size and top N.
    fn default() -> (o: Self)
        ensures
            o@ == (None::<Seq<char>>, None::<Seq<char>>, 0i32, 0i32, 0i32, None::<Seq<char>>),
    {
        SubscriptionOptions {
            filter: None,
            options: None,
            timeout_ms: 0,
            batch_size: 0,
            top_n: 0,
            order_by: None,
        }
    }
}

impl SubscriptionOptions {
    /// Creates a new SubscriptionOptions with default values.
    pub fn new() -> (o: Self)
        ensures
            o@ == (None::<Seq<char>>, None::<Seq<char>>, 0i32, 0i32, 0i32, None::<Seq<char>>),
    {
        Self::default()
    }

    /// Sets the filter expression.
    pub fn filter(self, filter: &str) -> (o: Self)
        ensures
            o@ == (Some(filter@), self@.1, self@.2, self@.3, self@.4, self@.5),
    {
        let mut o = self;
        o.filter = Some(String::from_str(filter));
        o
    }

    /// Sets additional options.
    pub fn options(self, options: &str) -> (o: Self)
        ensures
            o@ == (self@.0, Some(options@), self@.2, self@.3, self@.4, self@.5),
    {
        let mut o = self;
        o.options = Some(String::from_str(options));
        o
    }

    /// Sets the timeout in milliseconds.
    pub fn timeout_ms(self, timeout_ms: i32) -> (o: Self)
        ensures
            o@ == (self@.0, self@.1, timeout_ms, self@.3, self@.4, self@.5),
    {
        let mut o = self;
        o.timeout_ms = timeout_ms;
        o
    }

    /// Sets the batch size.
    pub fn batch_size(self, batch_size: i32) -> (o: Self)
        ensures
            o@ == (self@.0, self@.1, self@.2, batch_size, self@.4, self@.5),
    {
        let mut o = self;
        o.batch_size = batch_size;
        o
    }

    /// Sets the top N limit.
    pub fn top_n(self, top_n: i32) -> (o: Self)
        ensures
            o@ == (self@.0, self@.1, self@.2, self@.3, top_n, self@.5),
    {
        let mut o = self;
        o.top_n = top_n;
        o
    }

    /// Sets the ordering specification.
    pub fn order_by(self, order_by: &str) -> (o: Self)
        ensures
            o@ == (self@.0, self@.1, self@.2, self@.3, self@.4, Some(order_by@)),
    {
        let mut o = self;
        o.order_by = Some(String::from_str(order_by));
        o
    }
}

} // verus!
