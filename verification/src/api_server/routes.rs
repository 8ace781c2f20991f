//! The routes of the HTTP server.

use vstd::prelude::*;

verus! {

/// The method of an HTTP request.
#[derive(Clone, Copy, Debug, PartialEq, Eq, Structural)]
pub enum Method {
    Get,
    Head,
    Post,
    Put,
    Delete,
    Connect,
    Options,
    Trace,
    Patch,
}

/// A method and a path, with the handler of the requests for them.
pub struct Route<H> {
    pub method: Method,
    pub path: String,
    pub handler: H,
}

impl<H> Route<H> {
    /// Whether the route is that of a method and a path.
    pub open spec fn serves(self, method: Method, path: Seq<char>) -> bool {
        self.method == method && self.path@ == path
    }
}

/// The handler of the first route that serves a method and a path.
pub open spec fn first_match<H>(
    routes: Seq<Route<H>>,
    method: Method,
    path: Seq<char>,
) -> Option<H>
    decreases routes.len(),
{
    if routes.len() == 0 {
        None
    } else if routes[0].serves(method, path) {
        Some(routes[0].handler)
    } else {
        first_match(routes.drop_first(), method, path)
    }
}

/// The routes of a server, the oldest first.
pub struct Router<H> {
    routes: Vec<Route<H>>,
}

impl<H> View for Router<H> {
    type V = Seq<Route<H>>;

    closed spec fn view(&self) -> Seq<Route<H>> {
        self.routes@
    }
}

impl<H> Router<H> {
    /// A router without routes.
    pub fn new() -> (router: Self)
        ensures
            router@ == Seq::<Route<H>>::empty(),
    {
        Router { routes: Vec::new() }
    }

    /// Adds a route.
    pub fn add_route(&mut self, method: Method, path: String, handler: H)
        ensures
            final(self)@ == old(self)@.push(Route { method, path, handler }),
    {
        self.routes.push(Route { method, path, handler });
    }

    /// The handler of a request, if there is a route for it.
    pub fn handler(&self, method: Method, path: &String) -> (handler: Option<&H>)
        ensures
            handler is Some <==> first_match(self@, method, path@) is Some,
            handler is Some ==> *handler->Some_0 == first_match(self@, method, path@)->Some_0,
    {
        let mut n: usize = 0;
        assert(self@.skip(0) =~= self@);
        while n < self.routes.len()
            invariant
                n <= self.routes@.len(),
                first_match(self@, method, path@) == first_match(
                    self@.skip(n as int),
                    method,
                    path@,
                ),
            decreases self.routes@.len() - n,
        {
            let route: &Route<H> = &self.routes[n];
            if route.method == method && route.path.eq(path) {
                return Some(&route.handler);
            }
            n += 1;
            assert(self@.skip(n - 1).drop_first() =~= self@.skip(n as int));
        }
        None
    }
}

/// A request goes to the first route with its method and path.
pub proof fn law_first_route_of_a_request_serves_it<H>(
    routes: Seq<Route<H>>,
    method: Method,
    path: Seq<char>,
    i: int,
)
    requires
        0 <= i < routes.len(),
        routes[i].method == method && routes[i].path@ == path,
        forall|j: int|
            0 <= j < i ==> (#[trigger] routes[j]).method != method || routes[j].path@ != path,
    ensures
        first_match(routes, method, path) == Some(routes[i].handler),
    decreases i,
{
    if i > 0 {
        let rest = routes.drop_first();
        assert(routes[0].method != method || routes[0].path@ != path);
        assert forall|j: int| 0 <= j < i - 1 implies (#[trigger] rest[j]).method != method
            || rest[j].path@ != path by {
            assert(routes[j + 1].method != method || routes[j + 1].path@ != path);
        }
        law_first_route_of_a_request_serves_it(rest, method, path, i - 1);
    }
}

/// A request that no route has the method and the path of is not served.
pub proof fn law_request_without_a_route_is_not_served<H>(
    routes: Seq<Route<H>>,
    method: Method,
    path: Seq<char>,
)
    requires
        forall|j: int|
            0 <= j < routes.len() ==> (#[trigger] routes[j]).method != method || routes[j].path@
                != path,
    ensures
        first_match(routes, method, path) is None,
    decreases routes.len(),
{
    if routes.len() > 0 {
        let rest = routes.drop_first();
        assert(routes[0].method != method || routes[0].path@ != path);
        assert forall|j: int| 0 <= j < rest.len() implies (#[trigger] rest[j]).method != method
            || rest[j].path@ != path by {
            assert(routes[j + 1].method != method || routes[j + 1].path@ != path);
        }
        law_request_without_a_route_is_not_served(rest, method, path);
    }
}

} // verus!
