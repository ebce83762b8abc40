//! The dispatcher: a registry that routes method names to the handler
//! group registered under them.
//!
//! Registration appends a delegate — a handler instance together with
//! the method names it serves — and demands that the new names collide
//! with nothing registered before, so a well-formed dispatcher serves
//! every name through exactly one handler.

use vstd::prelude::*;
use crate::handlers::Contracts;
use crate::handlers::EthApi;
use crate::handlers::FullSystem;
use crate::handlers::TransactionPayment;
use crate::methods::contracts_methods;
use crate::methods::contracts_method_names;
use crate::methods::eth_methods;
use crate::methods::eth_method_names;
use crate::methods::names_of;
use crate::methods::payment_methods;
use crate::methods::payment_method_names;
use crate::methods::system_methods;
use crate::methods::system_method_names;

verus! {

/// The four registered handler groups.
#[derive(Clone, Copy, PartialEq, Eq, Structural, Debug)]
pub enum HandlerKind {
    /// Node and account metadata queries.
    System,
    /// Transaction-fee estimation.
    Payment,
    /// Read-only simulated contract invocation.
    Contracts,
    /// The Ethereum-compatible surface.
    Eth,
}

/// A handler instance as the dispatcher holds it.
#[derive(Debug)]
pub enum HandlerInstance {
    /// The system-information handler.
    System(FullSystem),
    /// The transaction-fee-estimation handler.
    Payment(TransactionPayment),
    /// The smart-contract-call handler.
    Contracts(Contracts),
    /// The Ethereum-compatibility handler.
    Eth(EthApi),
}

impl HandlerInstance {
    /// The group this instance belongs to.
    pub open spec fn kind(self) -> HandlerKind {
        match self {
            HandlerInstance::System(_) => HandlerKind::System,
            HandlerInstance::Payment(_) => HandlerKind::Payment,
            HandlerInstance::Contracts(_) => HandlerKind::Contracts,
            HandlerInstance::Eth(_) => HandlerKind::Eth,
        }
    }

    /// Reports the group this instance belongs to.
    pub fn kind_of(&self) -> (k: HandlerKind)
        ensures
            k == self.kind(),
    {
        match self {
            HandlerInstance::System(_) => HandlerKind::System,
            HandlerInstance::Payment(_) => HandlerKind::Payment,
            HandlerInstance::Contracts(_) => HandlerKind::Contracts,
            HandlerInstance::Eth(_) => HandlerKind::Eth,
        }
    }
}

/// A handler instance together with the method names it serves: the
/// unit of registration.
#[derive(Debug)]
pub struct Delegate {
    /// The handler that answers the names below.
    pub handler: HandlerInstance,
    /// The method names this delegate serves.
    pub methods: Vec<String>,
}

/// The names served by a sequence of delegates, in registration order.
pub open spec fn delegates_method_names(ds: Seq<Delegate>) -> Seq<Seq<char>>
    decreases ds.len(),
{
    if ds.len() == 0 {
        Seq::empty()
    } else {
        names_of(ds.first().methods@) + delegates_method_names(ds.drop_first())
    }
}

/// Appending a delegate appends exactly its names.
pub proof fn lemma_delegates_method_names_push(ds: Seq<Delegate>, d: Delegate)
    ensures
        delegates_method_names(ds.push(d)) == delegates_method_names(ds) + names_of(d.methods@),
    decreases ds.len(),
{
    if ds.len() == 0 {
        let rest = ds.push(d).drop_first();
        assert(rest =~= Seq::<Delegate>::empty());
        assert(delegates_method_names(rest) =~= Seq::<Seq<char>>::empty());
        assert(ds.push(d).first() == d);
        assert(delegates_method_names(ds.push(d)) =~= delegates_method_names(ds)
            + names_of(d.methods@));
    } else {
        assert(ds.push(d).drop_first() =~= ds.drop_first().push(d));
        lemma_delegates_method_names_push(ds.drop_first(), d);
        assert(ds.push(d).first() == ds.first());
        assert(delegates_method_names(ds.push(d)) =~= delegates_method_names(ds)
            + names_of(d.methods@));
    }
}

/// A name is served by some delegate exactly when the combined name
/// sequence contains it.
pub proof fn lemma_delegates_method_names_contains(ds: Seq<Delegate>, name: Seq<char>)
    ensures
        delegates_method_names(ds).contains(name) <==> exists|i: int|
            0 <= i < ds.len() && names_of(#[trigger] ds[i].methods@).contains(name),
    decreases ds.len(),
{
    if ds.len() != 0 {
        lemma_delegates_method_names_contains(ds.drop_first(), name);
        if names_of(ds.first().methods@).contains(name) {
            let j = choose|j: int|
                0 <= j < names_of(ds.first().methods@).len() && names_of(ds.first().methods@)[j]
                    == name;
            assert(delegates_method_names(ds)[j] == name);
        }
        if delegates_method_names(ds.drop_first()).contains(name) {
            let j = choose|j: int|
                0 <= j < delegates_method_names(ds.drop_first()).len()
                    && delegates_method_names(ds.drop_first())[j] == name;
            assert(delegates_method_names(ds)[names_of(ds.first().methods@).len() + j] == name);
        }
        if delegates_method_names(ds).contains(name) {
            let j = choose|j: int|
                0 <= j < delegates_method_names(ds).len() && delegates_method_names(ds)[j] == name;
            if j < names_of(ds.first().methods@).len() {
                assert(names_of(ds[0].methods@).contains(name));
            } else {
                assert(delegates_method_names(ds.drop_first())[j - names_of(
                    ds.first().methods@,
                ).len()] == name);
                assert(delegates_method_names(ds.drop_first()).contains(name));
                let i = choose|i: int|
                    0 <= i < ds.drop_first().len() && names_of(
                        #[trigger] ds.drop_first()[i].methods@,
                    ).contains(name);
                assert(ds.drop_first()[i] == ds[i + 1]);
                assert(names_of(ds[i + 1].methods@).contains(name));
            }
        }
        if exists|i: int| 0 <= i < ds.len() && names_of(#[trigger] ds[i].methods@).contains(name) {
            let i = choose|i: int|
                0 <= i < ds.len() && names_of(#[trigger] ds[i].methods@).contains(name);
            if i == 0 {
                assert(names_of(ds.first().methods@).contains(name));
            } else {
                assert(ds.drop_first()[i - 1] == ds[i]);
                assert(names_of(ds.drop_first()[i - 1].methods@).contains(name));
            }
        }
    }
}

/// A sequence that concatenates without duplicates is made of
/// duplicate-free, mutually disjoint halves.
pub proof fn lemma_concat_no_dup_parts(a: Seq<Seq<char>>, b: Seq<Seq<char>>)
    requires
        (a + b).no_duplicates(),
    ensures
        a.no_duplicates(),
        b.no_duplicates(),
        a.disjoint(b),
{
    assert forall|i: int, j: int|
        0 <= i < a.len() && 0 <= j < a.len() && i != j implies a[i] != a[j] by {
        assert((a + b)[i] == a[i]);
        assert((a + b)[j] == a[j]);
    }
    assert forall|i: int, j: int|
        0 <= i < b.len() && 0 <= j < b.len() && i != j implies b[i] != b[j] by {
        assert((a + b)[a.len() + i] == b[i]);
        assert((a + b)[a.len() + j] == b[j]);
    }
    assert forall|i: int, j: int| 0 <= i < a.len() && 0 <= j < b.len() implies a[i] != b[j] by {
        assert((a + b)[i] == a[i]);
        assert((a + b)[a.len() + j] == b[j]);
    }
}

/// When the combined names of a delegate sequence are free of
/// duplicates, no two distinct delegates serve the same name.
pub proof fn lemma_no_dup_serves_uniquely(ds: Seq<Delegate>, name: Seq<char>, i: int, j: int)
    requires
        delegates_method_names(ds).no_duplicates(),
        0 <= i < ds.len(),
        0 <= j < ds.len(),
        names_of(ds[i].methods@).contains(name),
        names_of(ds[j].methods@).contains(name),
    ensures
        i == j,
    decreases ds.len(),
{
    let first_names = names_of(ds.first().methods@);
    let rest = ds.drop_first();
    lemma_concat_no_dup_parts(first_names, delegates_method_names(rest));
    if i > 0 && j > 0 {
        assert(rest[i - 1] == ds[i]);
        assert(rest[j - 1] == ds[j]);
        lemma_no_dup_serves_uniquely(rest, name, i - 1, j - 1);
    } else if i != j {
        let k = if i == 0 { j } else { i };
        assert(names_of(ds[0].methods@).contains(name));
        assert(rest[k - 1] == ds[k]);
        assert(names_of(rest[k - 1].methods@).contains(name));
        lemma_delegates_method_names_contains(rest, name);
        let p = choose|p: int| 0 <= p < first_names.len() && first_names[p] == name;
        let q = choose|q: int|
            0 <= q < delegates_method_names(rest).len() && delegates_method_names(rest)[q]
                == name;
        assert(first_names[p] != delegates_method_names(rest)[q]);
    }
}

impl FullSystem {
    /// Packages the handler with the system method names.
    pub fn to_delegate(self) -> (d: Delegate)
        ensures
            d.handler == HandlerInstance::System(self),
            names_of(d.methods@) == system_method_names(),
    {
        Delegate { handler: HandlerInstance::System(self), methods: system_methods() }
    }
}

impl TransactionPayment {
    /// Packages the handler with the fee-estimation method names.
    pub fn to_delegate(self) -> (d: Delegate)
        ensures
            d.handler == HandlerInstance::Payment(self),
            names_of(d.methods@) == payment_method_names(),
    {
        Delegate { handler: HandlerInstance::Payment(self), methods: payment_methods() }
    }
}

impl Contracts {
    /// Packages the handler with the contract-call method names.
    pub fn to_delegate(self) -> (d: Delegate)
        ensures
            d.handler == HandlerInstance::Contracts(self),
            names_of(d.methods@) == contracts_method_names(),
    {
        Delegate { handler: HandlerInstance::Contracts(self), methods: contracts_methods() }
    }
}

impl EthApi {
    /// Packages the handler with the Ethereum method names; the
    /// signing names are included exactly when a signer is installed.
    pub fn to_delegate(self) -> (d: Delegate)
        ensures
            d.handler == HandlerInstance::Eth(self),
            names_of(d.methods@) == eth_method_names(self.signers@.len() > 0),
    {
        let dev_signer = self.signers.len() > 0;
        let methods = eth_methods(dev_signer);
        Delegate { handler: HandlerInstance::Eth(self), methods }
    }
}

/// How the dispatcher answers a request for a method name.
#[derive(Clone, Copy, PartialEq, Eq, Structural, Debug)]
pub enum RouteResult {
    /// The name is served by the given handler group.
    Routed(HandlerKind),
    /// No registered handler serves the name.
    MethodNotFound,
}

/// The request dispatcher: an ordered registry of delegates, populated
/// by successive registrations and then used to route method names.
#[derive(Debug)]
pub struct Dispatcher {
    /// The registered delegates, in registration order.
    pub delegates: Vec<Delegate>,
}

impl Dispatcher {
    /// Every name the dispatcher serves, in registration order.
    pub open spec fn method_names(self) -> Seq<Seq<char>> {
        delegates_method_names(self.delegates@)
    }

    /// No two registrations share a method name.
    pub open spec fn wf(self) -> bool {
        self.method_names().no_duplicates()
    }

    /// Whether some registered delegate serves `name`.
    pub open spec fn serves(self, name: Seq<char>) -> bool {
        self.method_names().contains(name)
    }

    /// Whether a delegate of group `kind` serves `name`.
    pub open spec fn routes_to(self, name: Seq<char>, kind: HandlerKind) -> bool {
        exists|i: int|
            0 <= i < self.delegates@.len() && (#[trigger] self.delegates@[i]).handler.kind()
                == kind && names_of(self.delegates@[i].methods@).contains(name)
    }

    /// An empty dispatcher, serving nothing.
    pub fn new() -> (r: Dispatcher)
        ensures
            r.delegates@ == Seq::<Delegate>::empty(),
            r.method_names() == Seq::<Seq<char>>::empty(),
            r.wf(),
    {
        Dispatcher { delegates: Vec::new() }
    }

    /// Registers a delegate. The new names must be free of internal
    /// duplicates and must not collide with anything registered before:
    /// a collision is a programming error of the assembly, not a
    /// runtime condition, so it is ruled out here once and for all.
    pub fn extend_with(&mut self, d: Delegate)
        requires
            names_of(d.methods@).no_duplicates(),
            old(self).method_names().disjoint(names_of(d.methods@)),
        ensures
            final(self).delegates@ == old(self).delegates@.push(d),
            final(self).method_names() == old(self).method_names() + names_of(d.methods@),
            old(self).wf() ==> final(self).wf(),
    {
        proof {
            lemma_delegates_method_names_push(self.delegates@, d);
            if self.wf() {
                vstd::seq_lib::lemma_no_dup_in_concat(
                    self.method_names(),
                    names_of(d.methods@),
                );
            }
        }
        self.delegates.push(d);
    }

    /// A well-formed dispatcher serves a name through at most one
    /// delegate.
    pub proof fn lemma_serves_uniquely(self, name: Seq<char>, i: int, j: int)
        requires
            self.wf(),
            0 <= i < self.delegates@.len(),
            0 <= j < self.delegates@.len(),
            names_of(self.delegates@[i].methods@).contains(name),
            names_of(self.delegates@[j].methods@).contains(name),
        ensures
            i == j,
    {
        lemma_no_dup_serves_uniquely(self.delegates@, name, i, j);
    }

    /// In a well-formed dispatcher a name routes to at most one
    /// handler group.
    pub proof fn lemma_route_kind_unique(
        self,
        name: Seq<char>,
        kind1: HandlerKind,
        kind2: HandlerKind,
    )
        requires
            self.wf(),
            self.routes_to(name, kind1),
            self.routes_to(name, kind2),
        ensures
            kind1 == kind2,
    {
        let i = choose|i: int|
            0 <= i < self.delegates@.len() && (#[trigger] self.delegates@[i]).handler.kind()
                == kind1 && names_of(self.delegates@[i].methods@).contains(name);
        let j = choose|j: int|
            0 <= j < self.delegates@.len() && (#[trigger] self.delegates@[j]).handler.kind()
                == kind2 && names_of(self.delegates@[j].methods@).contains(name);
        lemma_no_dup_serves_uniquely(self.delegates@, name, i, j);
    }

    /// Routes a method name: the group of the delegate serving it, or
    /// a method-not-found answer when no registration covers it — in
    /// particular for names whose only pathway was not installed.
    pub fn lookup(&self, name: &String) -> (r: RouteResult)
        ensures
            r is MethodNotFound <==> !self.serves(name@),
            r matches RouteResult::Routed(kind) ==> self.routes_to(name@, kind),
    {
        proof {
            lemma_delegates_method_names_contains(self.delegates@, name@);
        }
        let mut i: usize = 0;
        while i < self.delegates.len()
            invariant
                i <= self.delegates@.len(),
                forall|t: int|
                    0 <= t < i ==> !names_of(#[trigger] self.delegates@[t].methods@).contains(
                        name@,
                    ),
            decreases self.delegates@.len() - i,
        {
            let methods = &self.delegates[i].methods;
            let mut j: usize = 0;
            while j < methods.len()
                invariant
                    i < self.delegates@.len(),
                    methods@ == self.delegates@[i as int].methods@,
                    j <= methods@.len(),
                    forall|t: int| 0 <= t < j ==> names_of(methods@)[t] != name@,
                decreases methods@.len() - j,
            {
                let m: &String = &methods[j];
                if m.eq(name) {
                    let kind = self.delegates[i].handler.kind_of();
                    proof {
                        assert(names_of(methods@)[j as int] == methods@[j as int]@);
                        assert(names_of(self.delegates@[i as int].methods@)[j as int] == name@);
                        lemma_delegates_method_names_contains(self.delegates@, name@);
                    }
                    return RouteResult::Routed(kind);
                }
                proof {
                    assert(names_of(methods@)[j as int] == methods@[j as int]@);
                }
                j = j + 1;
            }
            proof {
                assert(forall|t: int|
                    0 <= t < names_of(self.delegates@[i as int].methods@).len()
                        ==> names_of(self.delegates@[i as int].methods@)[t] != name@);
            }
            i = i + 1;
        }
        proof {
            lemma_delegates_method_names_contains(self.delegates@, name@);
        }
        RouteResult::MethodNotFound
    }
}

} // verus!
