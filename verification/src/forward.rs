use crate::error::{Failure, ForwardError};
use crate::target::{resolved, Target, TargetView};
use crate::text::{chars_of, occurs_in, replace_chars, replaced, same_text, string_of};
use vstd::prelude::*;

verus! {

/// One line of the domain table: a public domain and the origin behind it.
#[derive(Debug)]
pub struct Route {
    domain: String,
    target: Target,
}

/// A `Route` as a mathematical value.
pub struct RouteView {
    pub domain: Seq<char>,
    pub target: TargetView,
}

impl View for Route {
    type V = RouteView;

    closed spec fn view(&self) -> RouteView {
        RouteView { domain: self.domain@, target: self.target@ }
    }
}

/// The domain table: the public domains that the proxy fronts, each with its
/// origin, in the order in which they were first named.
#[derive(Debug)]
pub struct Forward {
    routes: Vec<Route>,
    relay: Option<String>,
}

/// The place of the first route from `i` on whose domain is `domain`.
pub open spec fn lookup_from(routes: Seq<RouteView>, domain: Seq<char>, i: int) -> Option<int>
    decreases routes.len() - i,
{
    if i < 0 || i >= routes.len() {
        None
    } else if routes[i].domain == domain {
        Some(i)
    } else {
        lookup_from(routes, domain, i + 1)
    }
}

/// The place of the route for `domain`, if the table has one.
pub open spec fn lookup(routes: Seq<RouteView>, domain: Seq<char>) -> Option<int> {
    lookup_from(routes, domain, 0)
}

/// No domain has two routes.
pub open spec fn unique(routes: Seq<RouteView>) -> bool {
    forall|i: int, j: int|
        0 <= i < j < routes.len() ==> (#[trigger] routes[i]).domain != (#[trigger] routes[j]).domain
}

/// The table once `domain` leads to `target`: a route that the domain had is
/// replaced where it stood, a new one goes to the end.
pub open spec fn inserted(routes: Seq<RouteView>, domain: Seq<char>, target: TargetView) -> Seq<
    RouteView,
> {
    match lookup(routes, domain) {
        Some(i) => routes.update(i, RouteView { domain, target }),
        None => routes.push(RouteView { domain, target }),
    }
}

/// The table that the pairs of a public domain and an origin text give, taken
/// in order. The first origin text that gives no target fails the whole.
pub open spec fn built(pairs: Seq<(Seq<char>, Seq<char>)>) -> Result<Seq<RouteView>, Failure>
    decreases pairs.len(),
{
    if pairs.len() == 0 {
        Ok(Seq::empty())
    } else {
        match built(pairs.drop_last()) {
            Err(e) => Err(e),
            Ok(routes) => match resolved(pairs.last().1) {
                Err(e) => Err(e),
                Ok(target) => Ok(inserted(routes, pairs.last().0, target)),
            },
        }
    }
}

/// `text` with each origin's `host_with_port` replaced by the public domain
/// that leads to it, one route after the other in the table's order.
pub open spec fn rewritten(routes: Seq<RouteView>, text: Seq<char>) -> Seq<char>
    decreases routes.len(),
{
    if routes.len() == 0 {
        text
    } else {
        replaced(
            rewritten(routes.drop_last(), text),
            routes.last().target.host_with_port(),
            routes.last().domain,
        )
    }
}

/// What `lookup_from` finds is a route for the domain, and the first from `i`
/// on; where it finds none, there is none from `i` on.
pub proof fn lemma_lookup_from(routes: Seq<RouteView>, domain: Seq<char>, i: int)
    requires
        0 <= i,
    ensures
        match lookup_from(routes, domain, i) {
            Some(k) => i <= k < routes.len() && routes[k].domain == domain && forall|j: int|
                i <= j < k ==> (#[trigger] routes[j]).domain != domain,
            None => forall|j: int| i <= j < routes.len() ==> (#[trigger] routes[j]).domain != domain,
        },
    decreases routes.len() - i,
{
    if i < routes.len() && routes[i].domain != domain {
        lemma_lookup_from(routes, domain, i + 1);
    }
}

/// A table in which no domain has two routes stays so when a route is put in.
pub proof fn lemma_inserted_unique(routes: Seq<RouteView>, domain: Seq<char>, target: TargetView)
    requires
        unique(routes),
    ensures
        unique(inserted(routes, domain, target)),
        lookup(inserted(routes, domain, target), domain) is Some,
        inserted(routes, domain, target)[lookup(
            inserted(routes, domain, target),
            domain,
        )->0].target == target,
{
    lemma_lookup_from(routes, domain, 0);
    let after = inserted(routes, domain, target);
    lemma_lookup_from(after, domain, 0);
    match lookup(routes, domain) {
        Some(i) => {
            assert(after[i].domain == domain);
        },
        None => {
            assert(after[routes.len() as int].domain == domain);
        },
    }
}

/// A text in which no origin shows is left as it is; so rewriting twice gives
/// what rewriting once gives.
pub proof fn lemma_rewritten_without_origin(routes: Seq<RouteView>, text: Seq<char>)
    requires
        forall|i: int|
            0 <= i < routes.len() ==> !occurs_in(
                (#[trigger] routes[i]).target.host_with_port(),
                text,
            ),
    ensures
        rewritten(routes, text) == text,
        rewritten(routes, rewritten(routes, text)) == rewritten(routes, text),
    decreases routes.len(),
{
    if routes.len() > 0 {
        let head = routes.drop_last();
        assert forall|i: int| 0 <= i < head.len() implies !occurs_in(
            (#[trigger] head[i]).target.host_with_port(),
            text,
        ) by {
            assert(head[i] == routes[i]);
        }
        lemma_rewritten_without_origin(head, text);
        crate::text::lemma_replaced_absent(
            text,
            routes.last().target.host_with_port(),
            routes.last().domain,
        );
    }
}

impl View for Forward {
    type V = Seq<RouteView>;

    closed spec fn view(&self) -> Seq<RouteView> {
        Seq::new(self.routes@.len(), |i: int| self.routes@[i]@)
    }
}

impl Forward {
    /// The address of the SOCKS5 relay through which the origins are reached,
    /// if they are not reached directly.
    pub closed spec fn relay(&self) -> Option<Seq<char>> {
        self.relay.deep_view()
    }

    /// No domain has two routes, and every target is well formed.
    pub open spec fn wf(&self) -> bool {
        &&& unique(self@)
        &&& forall|i: int| 0 <= i < self@.len() ==> (#[trigger] self@[i]).target.wf()
    }

    /// A table without routes.
    pub fn empty() -> (f: Forward)
        ensures
            f@ == Seq::<RouteView>::empty(),
            f.relay() is None,
            f.wf(),
    {
        let f = Forward { routes: Vec::new(), relay: None };
        assert(f@ =~= Seq::<RouteView>::empty());
        f
    }

    /// The same table, with its origins reached through the SOCKS5 relay at
    /// `relay`, or directly where `relay` is nothing.
    pub fn with_relay(self, relay: Option<String>) -> (f: Forward)
        ensures
            f@ == self@,
            f.relay() == relay.deep_view(),
            self.wf() ==> f.wf(),
    {
        let Forward { routes, relay: _ } = self;
        let f = Forward { routes, relay };
        assert(f@ =~= self@);
        f
    }

    /// The address of the SOCKS5 relay, if the origins are reached through
    /// one.
    pub fn socks5_server(&self) -> (r: Option<&str>)
        ensures
            crate::coder::name_view(r) == self.relay(),
    {
        match &self.relay {
            Some(server) => Some(server.as_str()),
            None => None,
        }
    }

    /// The number of routes.
    pub fn len(&self) -> (n: usize)
        ensures
            n == self@.len(),
    {
        self.routes.len()
    }

    /// The place of the route for `domain`, if the table has one.
    pub fn find(&self, domain: &str) -> (r: Option<usize>)
        ensures
            r matches Some(i) ==> lookup(self@, domain@) == Some(i as int) && i < self@.len(),
            r is None ==> lookup(self@, domain@) is None,
    {
        let mut i: usize = 0;
        while i < self.routes.len()
            invariant
                i <= self.routes.len(),
                lookup_from(self@, domain@, i as int) == lookup(self@, domain@),
            decreases self.routes.len() - i,
        {
            if same_text(self.routes[i].domain.as_str(), domain) {
                return Some(i);
            }
            i += 1;
        }
        None
    }

    /// The public domain of the route at place `i`, if the table has so many
    /// routes.
    pub fn domain(&self, i: usize) -> (r: Option<&str>)
        ensures
            i < self@.len() ==> (r matches Some(d) && d@ == self@[i as int].domain),
            i >= self@.len() ==> r is None,
    {
        if i < self.routes.len() {
            Some(self.routes[i].domain.as_str())
        } else {
            None
        }
    }

    /// The origin of the route at place `i`, if the table has so many routes.
    pub fn target(&self, i: usize) -> (r: Option<&Target>)
        ensures
            i < self@.len() ==> (r matches Some(t) && t@ == self@[i as int].target),
            i >= self@.len() ==> r is None,
    {
        if i < self.routes.len() {
            Some(&self.routes[i].target)
        } else {
            None
        }
    }

    /// The origin that `domain` leads to, if the table has a route for it.
    pub fn get(&self, domain: &str) -> (r: Option<&Target>)
        ensures
            match lookup(self@, domain@) {
                Some(i) => r matches Some(t) && t@ == self@[i].target,
                None => r is None,
            },
    {
        match self.find(domain) {
            Some(i) => Some(&self.routes[i].target),
            None => None,
        }
    }

    /// Makes `domain` lead to `target`.
    pub fn insert(&mut self, domain: String, target: Target)
        ensures
            final(self)@ == inserted(old(self)@, domain@, target@),
            final(self).relay() == old(self).relay(),
            old(self).wf() && target@.wf() ==> final(self).wf(),
    {
        let ghost before = self@;
        let ghost route = RouteView { domain: domain@, target: target@ };
        match self.find(domain.as_str()) {
            Some(i) => {
                self.routes.set(i, Route { domain, target });
                assert(self@ =~= before.update(i as int, route));
            },
            None => {
                self.routes.push(Route { domain, target });
                assert(self@ =~= before.push(route));
            },
        }
        proof {
            if unique(before) {
                lemma_inserted_unique(before, route.domain, route.target);
            }
        }
    }

    /// The table that the pairs of a public domain and an origin text give.
    /// A domain named twice keeps its place and leads to the later origin.
    pub fn new(domain_name: &Vec<(String, String)>) -> (r: Result<Forward, ForwardError>)
        ensures
            match built(domain_name.deep_view()) {
                Ok(routes) => r matches Ok(f) && f@ == routes && f.relay() is None && f.wf(),
                Err(e) => r matches Err(x) && x@ == e,
            },
    {
        let mut forward = Forward::empty();
        let mut i: usize = 0;
        while i < domain_name.len()
            invariant
                i <= domain_name.len(),
                forward.wf(),
                forward.relay() is None,
                built(domain_name.deep_view().take(i as int)) == Ok::<Seq<RouteView>, Failure>(
                    forward@,
                ),
            decreases domain_name.len() - i,
        {
            let ghost pairs = domain_name.deep_view();
            proof {
                assert(pairs.take(i + 1).drop_last() =~= pairs.take(i as int));
                assert(pairs.take(i + 1).last() == pairs[i as int]);
                assert(pairs[i as int] == domain_name@[i as int].deep_view());
            }
            match Target::try_from(domain_name[i].1.as_str()) {
                Ok(target) => {
                    forward.insert(domain_name[i].0.clone(), target);
                },
                Err(e) => {
                    proof {
                        lemma_built_fails(pairs, i + 1);
                    }
                    return Err(e);
                },
            }
            i += 1;
        }
        assert(domain_name.deep_view().take(i as int) =~= domain_name.deep_view());
        Ok(forward)
    }

    /// `text` with each origin's `host_with_port` replaced by the public
    /// domain that leads to it.
    pub fn rewrite(&self, text: &str) -> (out: String)
        ensures
            out@ == rewritten(self@, text@),
    {
        let mut cur: Vec<char> = chars_of(text);
        let mut i: usize = 0;
        assert(self@.take(0) =~= Seq::<RouteView>::empty());
        while i < self.routes.len()
            invariant
                i <= self.routes.len(),
                cur@ == rewritten(self@.take(i as int), text@),
            decreases self.routes.len() - i,
        {
            let from = self.routes[i].target.host_with_port();
            let from = chars_of(from.as_str());
            let to = chars_of(self.routes[i].domain.as_str());
            cur = replace_chars(cur.as_slice(), from.as_slice(), to.as_slice());
            proof {
                assert(self@.take(i + 1).drop_last() =~= self@.take(i as int));
                assert(self@.take(i + 1).last() == self@[i as int]);
            }
            i += 1;
        }
        assert(self@.take(i as int) =~= self@);
        string_of(cur.as_slice())
    }
}

/// Pairs whose beginning gives no table give none.
pub proof fn lemma_built_fails(pairs: Seq<(Seq<char>, Seq<char>)>, n: int)
    requires
        0 <= n <= pairs.len(),
        built(pairs.take(n)) is Err,
    ensures
        built(pairs) == built(pairs.take(n)),
    decreases pairs.len() - n,
{
    if n < pairs.len() {
        assert(pairs.take(n + 1).drop_last() =~= pairs.take(n));
        lemma_built_fails(pairs, n + 1);
    } else {
        assert(pairs.take(n) =~= pairs);
    }
}

} // verus!
