//! An in-process test double for the transport capability interface: it
//! answers requests from a configured method/response table, hands out
//! subscriptions over configured pushed items, resolves block-hash lookups
//! to a configured best block, and counts every call it receives.

use vstd::prelude::*;
use vstd::string::StringExecFns;
use crate::rpc::{OnlineClientT, RpcClientT, RpcError, Subscription, items_view, rpc_item_view};
use crate::strutil::str_eq;

verus! {

/// Saturating successor, used for the stub's call counters.
pub open spec fn sat_inc(n: u64) -> u64 {
    if n == u64::MAX {
        n
    } else {
        (n + 1) as u64
    }
}

/// The views of a method/response table, in the same order.
pub open spec fn table_view(t: Seq<(String, String)>) -> Seq<(Seq<char>, Seq<char>)> {
    t.map_values(|p: (String, String)| (p.0@, p.1@))
}

/// The response a stub gives to a request: the configured payload of the
/// first table entry whose method name matches, if any.
pub open spec fn spec_lookup(table: Seq<(Seq<char>, Seq<char>)>, method: Seq<char>) -> Option<
    Seq<char>,
>
    decreases table.len(),
{
    if table.len() == 0 {
        None
    } else if table[0].0 == method {
        Some(table[0].1)
    } else {
        spec_lookup(table.drop_first(), method)
    }
}

/// An in-process transport whose answers are fixed up front. Answering
/// calls never changes its request table, pushed subscription items or best
/// block; the counters record how often each capability was invoked.
#[derive(Clone)]
pub struct StubTransport<H> {
    responses: Vec<(String, String)>,
    pushes: Vec<Result<String, RpcError>>,
    best_block: H,
    requests_made: u64,
    subscribes_made: u64,
    lookups_made: u64,
}

impl<H> StubTransport<H> {
    /// The configured method/response table.
    pub closed spec fn spec_responses(self) -> Seq<(Seq<char>, Seq<char>)> {
        table_view(self.responses@)
    }

    /// The items every subscription made from this stub will push, in order.
    pub closed spec fn spec_pushes(self) -> Seq<Result<Seq<char>, Seq<char>>> {
        items_view(self.pushes@)
    }

    /// The identifier of the stub's current best block.
    pub closed spec fn spec_best_block(self) -> H {
        self.best_block
    }

    /// How many one-shot requests this stub has answered.
    pub closed spec fn spec_requests_made(self) -> u64 {
        self.requests_made
    }

    /// How many subscriptions this stub has established.
    pub closed spec fn spec_subscribes_made(self) -> u64 {
        self.subscribes_made
    }

    /// How many block-hash lookups this stub has answered.
    pub closed spec fn spec_lookups_made(self) -> u64 {
        self.lookups_made
    }

    /// The stub's fixed configuration: everything but the call counters.
    pub open spec fn same_config(self, other: Self) -> bool {
        &&& self.spec_responses() == other.spec_responses()
        &&& self.spec_pushes() == other.spec_pushes()
        &&& self.spec_best_block() == other.spec_best_block()
    }

    /// A stub with no configured responses or pushes and untouched counters.
    pub fn new(best_block: H) -> (r: Self)
        ensures
            r.spec_responses() == Seq::<(Seq<char>, Seq<char>)>::empty(),
            r.spec_pushes() == Seq::<Result<Seq<char>, Seq<char>>>::empty(),
            r.spec_best_block() == best_block,
            r.spec_requests_made() == 0,
            r.spec_subscribes_made() == 0,
            r.spec_lookups_made() == 0,
    {
        let r = StubTransport {
            responses: Vec::new(),
            pushes: Vec::new(),
            best_block,
            requests_made: 0,
            subscribes_made: 0,
            lookups_made: 0,
        };
        proof {
            assert(r.spec_responses() =~= Seq::<(Seq<char>, Seq<char>)>::empty());
            assert(r.spec_pushes() =~= Seq::<Result<Seq<char>, Seq<char>>>::empty());
        }
        r
    }

    /// Configure the answer to one method.
    pub fn add_response(&mut self, method: String, payload: String)
        ensures
            final(self).spec_responses() == old(self).spec_responses().push(
                (method@, payload@),
            ),
            final(self).spec_pushes() == old(self).spec_pushes(),
            final(self).spec_best_block() == old(self).spec_best_block(),
            final(self).spec_requests_made() == old(self).spec_requests_made(),
            final(self).spec_subscribes_made() == old(self).spec_subscribes_made(),
            final(self).spec_lookups_made() == old(self).spec_lookups_made(),
    {
        let ghost before = self.spec_responses();
        self.responses.push((method, payload));
        proof {
            assert(self.spec_responses() =~= before.push(
                (self.responses@.last().0@, self.responses@.last().1@),
            ));
        }
    }

    /// Configure one more item that subscriptions will push.
    pub fn add_push(&mut self, item: Result<String, RpcError>)
        ensures
            final(self).spec_pushes() == old(self).spec_pushes().push(rpc_item_view(item)),
            final(self).spec_responses() == old(self).spec_responses(),
            final(self).spec_best_block() == old(self).spec_best_block(),
            final(self).spec_requests_made() == old(self).spec_requests_made(),
            final(self).spec_subscribes_made() == old(self).spec_subscribes_made(),
            final(self).spec_lookups_made() == old(self).spec_lookups_made(),
    {
        let ghost before = self.spec_pushes();
        let ghost v = rpc_item_view(item);
        self.pushes.push(item);
        proof {
            assert(self.spec_pushes() =~= before.push(v));
        }
    }

    /// How many one-shot requests were answered.
    pub fn requests_made(&self) -> (r: u64)
        ensures
            r == self.spec_requests_made(),
    {
        self.requests_made
    }

    /// How many subscriptions were established.
    pub fn subscribes_made(&self) -> (r: u64)
        ensures
            r == self.spec_subscribes_made(),
    {
        self.subscribes_made
    }

    /// How many block-hash lookups were answered.
    pub fn lookups_made(&self) -> (r: u64)
        ensures
            r == self.spec_lookups_made(),
    {
        self.lookups_made
    }
}

/// Law: answering a request never changes the stub's configuration, so
/// however many holders of one shared transport interleave their calls, the
/// answer each method gets is fixed by the configuration alone: every caller
/// receives the result correlated to its own method, with no cross-talk.
pub proof fn lemma_no_cross_talk<H>(
    before: StubTransport<H>,
    after: StubTransport<H>,
    method: Seq<char>,
)
    requires
        after.same_config(before),
    ensures
        spec_lookup(after.spec_responses(), method) == spec_lookup(
            before.spec_responses(),
            method,
        ),
{
}

fn lookup_from(table: &Vec<(String, String)>, i: usize, method: &str) -> (r: Option<String>)
    requires
        i <= table.len(),
    ensures
        match r {
            Some(s) => spec_lookup(table_view(table@).skip(i as int), method@) == Some(s@),
            None => spec_lookup(table_view(table@).skip(i as int), method@) is None,
        },
    decreases table.len() - i,
{
    let ghost view = table_view(table@);
    if i == table.len() {
        proof {
            assert(view.skip(i as int) =~= Seq::empty());
        }
        None
    } else {
        proof {
            assert(view.skip(i as int)[0] == view[i as int]);
            assert(view.skip(i as int).drop_first() =~= view.skip(i as int + 1));
        }
        if str_eq(table[i].0.as_str(), method) {
            Some(table[i].1.clone())
        } else {
            lookup_from(table, i + 1, method)
        }
    }
}

impl<H> RpcClientT for StubTransport<H> {
    /// Answer from the response table: the configured payload when the
    /// method is known, a flattened error when it is not. Counts the call.
    fn request(&mut self, method: &str, params: Option<&str>) -> (r: Result<String, RpcError>)
        ensures
            final(self).same_config(*old(self)),
            final(self).spec_requests_made() == sat_inc(old(self).spec_requests_made()),
            final(self).spec_subscribes_made() == old(self).spec_subscribes_made(),
            final(self).spec_lookups_made() == old(self).spec_lookups_made(),
            match r {
                Ok(s) => spec_lookup(old(self).spec_responses(), method@) == Some(s@),
                Err(_) => spec_lookup(old(self).spec_responses(), method@) is None,
            },
    {
        self.requests_made = self.requests_made.saturating_add(1);
        proof {
            assert(self.spec_responses().skip(0) =~= self.spec_responses());
        }
        match lookup_from(&self.responses, 0, method) {
            Some(payload) => Ok(payload),
            None => Err(RpcError(String::from_str("no response configured for this method"))),
        }
    }

    /// Hand out a fresh subscription over the configured pushed items,
    /// remembering the unsubscribe method for teardown. Counts the call.
    fn subscribe(&mut self, sub_method: &str, params: Option<&str>, unsub_method: &str) -> (r:
        Result<Subscription, RpcError>)
        ensures
            final(self).same_config(*old(self)),
            final(self).spec_subscribes_made() == sat_inc(old(self).spec_subscribes_made()),
            final(self).spec_requests_made() == old(self).spec_requests_made(),
            final(self).spec_lookups_made() == old(self).spec_lookups_made(),
            (r matches Ok(s) && s.pushed() == old(self).spec_pushes()),
    {
        self.subscribes_made = self.subscribes_made.saturating_add(1);
        let items = clone_items(&self.pushes);
        Ok(Subscription::new(items, String::from_str(unsub_method)))
    }
}

fn clone_items(src: &Vec<Result<String, RpcError>>) -> (r: Vec<Result<String, RpcError>>)
    ensures
        items_view(r@) == items_view(src@),
{
    let mut out: Vec<Result<String, RpcError>> = Vec::new();
    let mut i: usize = 0;
    while i < src.len()
        invariant
            i <= src.len(),
            out@.len() == i,
            forall|j: int| 0 <= j < i ==> items_view(out@)[j] == items_view(src@)[j],
        decreases src.len() - i,
    {
        let copied: Result<String, RpcError> = match &src[i] {
            Ok(s) => Ok(s.clone()),
            Err(e) => Err(e.clone()),
        };
        let ghost out_before = out@;
        proof {
            assert(rpc_item_view(copied) == items_view(src@)[i as int]);
        }
        out.push(copied);
        i += 1;
        proof {
            assert forall|j: int| 0 <= j < i implies items_view(out@)[j] == items_view(src@)[j] by {
                assert(out@ == out_before.push(copied));
                if j < i - 1 {
                    assert(out@[j] == out_before[j]);
                    assert(items_view(out@)[j] == rpc_item_view(out@[j]));
                    assert(items_view(out_before)[j] == rpc_item_view(out_before[j]));
                } else {
                    assert(out@[j] == copied);
                    assert(items_view(out@)[j] == rpc_item_view(copied));
                }
            }
        }
    }
    proof {
        assert(items_view(out@) =~= items_view(src@));
    }
    out
}

impl<H: Copy> OnlineClientT<H> for StubTransport<H> {
    /// Resolve every lookup to the configured best block. Counts the call.
    fn block_hash(&mut self, number: Option<u64>) -> (r: Result<Option<H>, RpcError>)
        ensures
            final(self).same_config(*old(self)),
            final(self).spec_lookups_made() == sat_inc(old(self).spec_lookups_made()),
            final(self).spec_requests_made() == old(self).spec_requests_made(),
            final(self).spec_subscribes_made() == old(self).spec_subscribes_made(),
            r == Ok::<Option<H>, RpcError>(Some(old(self).spec_best_block())),
    {
        self.lookups_made = self.lookups_made.saturating_add(1);
        Ok(Some(self.best_block))
    }
}

} // verus!
