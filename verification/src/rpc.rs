//! The transport capability layer: a minimal client interface (`request`,
//! `subscribe`, and a block-hash lookup) that every concrete transport
//! implements, a flattened transport error, a subscription modelled as an
//! explicit state machine, and an in-process stub transport for tests.

use vstd::prelude::*;

verus! {

/// A transport-layer failure, flattened into a single kind carrying a
/// human-readable message: callers are not expected to distinguish
/// transport failure categories at this layer.
#[derive(Debug)]
pub struct RpcError(pub String);

impl Clone for RpcError {
    fn clone(&self) -> (r: Self)
        ensures
            r.0@ == self.0@,
    {
        RpcError(self.0.clone())
    }
}

/// The view of one pushed subscription item: the payload text on success,
/// or the flattened error message.
pub open spec fn rpc_item_view(r: Result<String, RpcError>) -> Result<Seq<char>, Seq<char>> {
    match r {
        Ok(s) => Ok(s@),
        Err(e) => Err(e.0@),
    }
}

/// The views of a sequence of pushed items, in the same order.
pub open spec fn items_view(items: Seq<Result<String, RpcError>>) -> Seq<
    Result<Seq<char>, Seq<char>>,
> {
    items.map_values(|r: Result<String, RpcError>| rpc_item_view(r))
}

/// A live, server-pushed sequence of responses tied to one subscription id.
///
/// Items are delivered in the server's push order, each one independently
/// fallible. The subscription is one-shot: once ended it never yields again,
/// and ending it is what issues the configured unsubscribe call.
pub struct Subscription {
    items: Vec<Result<String, RpcError>>,
    next: usize,
    open: bool,
    unsub_method: String,
    unsubs_issued: u64,
}

impl Subscription {
    /// Everything the server has pushed (or will push) on this subscription,
    /// in push order.
    pub closed spec fn pushed(self) -> Seq<Result<Seq<char>, Seq<char>>> {
        items_view(self.items@)
    }

    /// How many items the consumer has taken so far.
    pub closed spec fn delivered(self) -> int {
        self.next as int
    }

    /// Whether the subscription is still live (not yet ended).
    pub closed spec fn is_open(self) -> bool {
        self.open
    }

    /// How many unsubscribe calls this subscription has issued.
    pub closed spec fn unsubscribes_issued(self) -> int {
        self.unsubs_issued as int
    }

    /// The unsubscribe method configured when the subscription was made.
    pub closed spec fn unsub_method(self) -> Seq<char> {
        self.unsub_method@
    }

    /// Well-formedness: the cursor stays within the pushed items, and an
    /// unsubscribe is issued at most once, only when the subscription ends.
    pub closed spec fn wf(self) -> bool {
        &&& self.next <= self.items.len()
        &&& self.unsubs_issued <= 1
        &&& (self.open ==> self.unsubs_issued == 0)
    }

    /// The state after the subscription is ended: closed, with one
    /// unsubscribe issued if and only if it was still open.
    pub closed spec fn spec_ended(self) -> Subscription {
        Subscription {
            items: self.items,
            next: self.next,
            open: false,
            unsub_method: self.unsub_method,
            unsubs_issued: (self.unsubs_issued + (if self.open {
                1int
            } else {
                0int
            })) as u64,
        }
    }

    /// A fresh one-shot subscription over the given pushed items, configured
    /// with the method to call on teardown.
    pub fn new(items: Vec<Result<String, RpcError>>, unsub_method: String) -> (r: Subscription)
        ensures
            r.wf(),
            r.is_open(),
            r.delivered() == 0,
            r.unsubscribes_issued() == 0,
            r.pushed() == items_view(items@),
            r.unsub_method() == unsub_method@,
    {
        Subscription { items, next: 0, open: true, unsub_method, unsubs_issued: 0 }
    }

    /// Take the next pushed item, in push order. A subscription that has
    /// ended, or whose pushed items are exhausted, yields nothing.
    pub fn next_item(&mut self) -> (r: Option<Result<String, RpcError>>)
        requires
            old(self).wf(),
        ensures
            final(self).wf(),
            final(self).pushed() == old(self).pushed(),
            final(self).is_open() == old(self).is_open(),
            final(self).unsubscribes_issued() == old(self).unsubscribes_issued(),
            final(self).unsub_method() == old(self).unsub_method(),
            if old(self).is_open() && old(self).delivered() < old(self).pushed().len() {
                &&& final(self).delivered() == old(self).delivered() + 1
                &&& (r matches Some(item) && rpc_item_view(item) == old(self).pushed()[old(self).delivered()])
            } else {
                &&& final(self).delivered() == old(self).delivered()
                &&& r is None
            },
    {
        if self.open && self.next < self.items.len() {
            let item = match &self.items[self.next] {
                Ok(s) => Ok(s.clone()),
                Err(e) => Err(e.clone()),
            };
            proof {
                assert(rpc_item_view(item) == old(self).pushed()[old(self).delivered()]);
            }
            self.next = self.next + 1;
            Some(item)
        } else {
            None
        }
    }

    /// Whether the subscription is still live.
    pub fn open_now(&self) -> (r: bool)
        ensures
            r == self.is_open(),
    {
        self.open
    }

    /// How many unsubscribe calls this subscription has issued so far.
    pub fn unsubscribes(&self) -> (r: u64)
        ensures
            r == self.unsubscribes_issued(),
    {
        self.unsubs_issued
    }

    /// End the subscription. This is the teardown side effect: it issues the
    /// configured unsubscribe call if and only if the subscription was still
    /// open, and reports whether it did.
    pub fn end(&mut self) -> (issued: bool)
        requires
            old(self).wf(),
        ensures
            final(self).wf(),
            *final(self) == old(self).spec_ended(),
            issued == old(self).is_open(),
            !final(self).is_open(),
            final(self).unsubscribes_issued() == old(self).unsubscribes_issued() + (if old(self).is_open() {
                1int
            } else {
                0int
            }),
            final(self).pushed() == old(self).pushed(),
            final(self).delivered() == old(self).delivered(),
            final(self).unsub_method() == old(self).unsub_method(),
    {
        if self.open {
            self.open = false;
            self.unsubs_issued = self.unsubs_issued + 1;
            true
        } else {
            false
        }
    }
}

/// Law: tearing a subscription down issues exactly one unsubscribe call over
/// its whole lifetime, however early it happens and whether or not any item
/// was delivered; tearing it down a second time issues none.
pub proof fn lemma_unsubscribe_exactly_once(s: Subscription)
    requires
        s.wf(),
        s.is_open(),
    ensures
        s.spec_ended().unsubscribes_issued() == s.unsubscribes_issued() + 1,
        !s.spec_ended().is_open(),
        s.spec_ended().spec_ended().unsubscribes_issued() == s.spec_ended().unsubscribes_issued(),
{
}

/// The minimal capability contract every concrete transport offers: one-shot
/// request/response calls and one-shot subscriptions. This is the system's
/// polymorphism boundary; higher layers are transport-agnostic.
pub trait RpcClientT: Sized {
    /// Issue a named method call with optional serialized parameters and
    /// wait for its single serialized result.
    fn request(&mut self, method: &str, params: Option<&str>) -> (r: Result<String, RpcError>);

    /// Establish a subscription, naming both the subscribe method and the
    /// unsubscribe method to be called on teardown. Each call yields a fresh
    /// one-shot subscription; resubscribing requires a new call.
    fn subscribe(&mut self, sub_method: &str, params: Option<&str>, unsub_method: &str) -> (r:
        Result<Subscription, RpcError>)
        ensures
            (r matches Ok(s) ==> {
                &&& s.wf()
                &&& s.is_open()
                &&& s.delivered() == 0
                &&& s.unsubscribes_issued() == 0
                &&& s.unsub_method() == unsub_method@
            }),
    ;
}

/// The block-hash lookup capability: the identifier of a numbered block, or
/// of the chain's current best block when no number is given. By protocol
/// convention the best-block lookup always returns a concrete identifier.
pub trait OnlineClientT<H>: Sized {
    /// Look up a block identifier. A successful lookup with no number given
    /// is guaranteed to carry a value.
    fn block_hash(&mut self, number: Option<u64>) -> (r: Result<Option<H>, RpcError>)
        ensures
            (number is None && r is Ok ==> (r matches Ok(h) && h is Some)),
    ;
}

} // verus!
