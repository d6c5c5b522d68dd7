//! The application as it is set up at start: its routes, the bounds of its
//! connection pool, and the maker of correlation identifiers.

use crate::http::{Method, MethodView};
use crate::id::{RequestId, Uuid};
use vstd::prelude::*;

verus! {

/// The handlers of this service.
#[derive(Clone, Copy, Debug, PartialEq, Eq, Structural)]
pub enum Handler {
    /// The liveness probe.
    HealthCheck,
    /// The subscription handler.
    Subscribe,
}

/// One registered route.
#[derive(Clone, Debug, PartialEq, Eq)]
pub struct Route {
    pub method: Method,
    pub path: String,
    pub handler: Handler,
}

/// What a `Route` holds, as mathematical values.
pub struct RouteView {
    pub method: MethodView,
    pub path: Seq<char>,
    pub handler: Handler,
}

impl View for Route {
    type V = RouteView;

    open spec fn view(&self) -> RouteView {
        RouteView { method: self.method@, path: self.path@, handler: self.handler }
    }
}

impl DeepView for Route {
    type V = RouteView;

    open spec fn deep_view(&self) -> RouteView {
        self@
    }
}

/// The route is registered for this method and path.
pub open spec fn serves(route: RouteView, method: MethodView, path: Seq<char>) -> bool {
    route.method == method && route.path == path
}

/// No method and path are registered twice.
pub open spec fn is_routing_table(routes: Seq<RouteView>) -> bool {
    forall|i: int, j: int|
        #![trigger routes[i], routes[j]]
        0 <= i < j < routes.len() ==> !serves(routes[i], routes[j].method, routes[j].path)
}

/// Some route is registered for this method and path.
pub open spec fn is_served(routes: Seq<RouteView>, method: MethodView, path: Seq<char>) -> bool {
    exists|i: int| 0 <= i < routes.len() && serves(#[trigger] routes[i], method, path)
}

/// The handler registered for a method and path; `None` where there is
/// none.
pub open spec fn lookup(routes: Seq<RouteView>, method: MethodView, path: Seq<char>) -> Option<
    Handler,
> {
    if is_served(routes, method, path) {
        Some(
            routes[choose|i: int|
                0 <= i < routes.len() && serves(#[trigger] routes[i], method, path)].handler,
        )
    } else {
        None
    }
}

/// The routes of this service.
pub open spec fn standard_routes() -> Seq<RouteView> {
    seq![
        RouteView {
            method: MethodView::Get,
            path: "/health_check"@,
            handler: Handler::HealthCheck,
        },
        RouteView {
            method: MethodView::Post,
            path: "/subscriptions"@,
            handler: Handler::Subscribe,
        },
    ]
}

/// The application: a table of routes in which no method and path come
/// twice.
pub struct App {
    routes: Vec<Route>,
}

impl View for App {
    type V = Seq<RouteView>;

    closed spec fn view(&self) -> Seq<RouteView> {
        self.routes.deep_view()
    }
}

impl App {
    #[verifier::type_invariant]
    spec fn well_formed(self) -> bool {
        is_routing_table(self.routes.deep_view())
    }

    /// An application without routes: it answers every request with 404.
    pub fn new() -> (app: App)
        ensures
            app@ == Seq::<RouteView>::empty(),
    {
        let routes: Vec<Route> = Vec::new();
        assert(routes.deep_view() =~= Seq::<RouteView>::empty());
        App { routes }
    }

    /// Registers a handler for a method and path. Where the two are
    /// registered already, the application is handed back as it was, in
    /// `Err`.
    pub fn route(self, method: Method, path: &str, handler: Handler) -> (res: Result<App, App>)
        ensures
            match res {
                Ok(app) => !is_served(self@, method@, path@) && app@ == self@.push(
                    RouteView { method: method@, path: path@, handler },
                ),
                Err(app) => is_served(self@, method@, path@) && app@ == self@,
            },
    {
        proof {
            use_type_invariant(&self);
        }
        if self.dispatch(&method, path).is_some() {
            return Err(self);
        }
        let ghost before = self@;
        let mut routes = self.routes;
        routes.push(Route { method, path: path.to_owned(), handler });
        proof {
            let after = routes.deep_view();
            let added = RouteView { method: method@, path: path@, handler };
            assert(after =~= before.push(added));
            assert forall|i: int, j: int|
                #![trigger after[i], after[j]]
                0 <= i < j < after.len() implies !serves(
                after[i],
                after[j].method,
                after[j].path,
            ) by {
                if j == after.len() - 1 {
                    assert(after[i] == before[i]);
                    assert(!serves(before[i], method@, path@));
                } else {
                    assert(after[i] == before[i]);
                    assert(after[j] == before[j]);
                }
            }
        }
        Ok(App { routes })
    }

    /// Maps a method and path to the one handler registered for them.
    /// `None` stands for 404.
    pub fn dispatch(&self, method: &Method, path: &str) -> (handler: Option<Handler>)
        ensures
            handler == lookup(self@, method@, path@),
    {
        proof {
            use_type_invariant(self);
        }
        let ghost routes = self@;
        let wanted = path.to_owned();
        let n = self.routes.len();
        let mut i: usize = 0;
        while i < n
            invariant
                i <= n,
                n == self.routes.len(),
                routes == self.routes.deep_view(),
                routes.len() == n,
                is_routing_table(routes),
                wanted@ == path@,
                forall|k: int| 0 <= k < i ==> !serves(#[trigger] routes[k], method@, path@),
            decreases n - i,
        {
            assert(routes[i as int] == self.routes[i as int]@);
            if self.routes[i].method.same_as(method) && self.routes[i].path == wanted {
                proof {
                    assert(serves(routes[i as int], method@, path@));
                    let c = choose|c: int|
                        0 <= c < routes.len() && serves(#[trigger] routes[c], method@, path@);
                    if c < i {
                        assert(!serves(routes[c], method@, path@));
                    }
                    if i < c {
                        assert(!serves(routes[i as int], routes[c].method, routes[c].path));
                    }
                }
                return Some(self.routes[i].handler);
            }
            i = i + 1;
        }
        None
    }
}

/// Builds the application of this service: `GET /health_check` goes to the
/// liveness probe, `POST /subscriptions` to the subscription handler, and
/// nothing else is registered.
pub fn get_app() -> (app: App)
    ensures
        app@ == standard_routes(),
{
    let app = App::new();
    let app = match app.route(Method::Get, "/health_check", Handler::HealthCheck) {
        Ok(app) => app,
        Err(app) => app,
    };
    let app = match app.route(Method::Post, "/subscriptions", Handler::Subscribe) {
        Ok(app) => app,
        Err(app) => app,
    };
    assert(app@ =~= standard_routes());
    app
}

/// The bounds of the connection pool.
#[derive(Clone, Copy, Debug, PartialEq, Eq, Structural)]
pub struct PoolOptions {
    /// How many connections may be open at once.
    pub max_connections: u32,
    /// The age in seconds at which a connection is closed and replaced.
    pub max_lifetime_secs: u64,
}

/// The bounds of the pool where the configuration supplies none: a thousand
/// connections, each of them for half an hour at most.
pub open spec fn default_pool_options() -> PoolOptions {
    PoolOptions { max_connections: 1000, max_lifetime_secs: 1800 }
}

/// The bounds of the pool for what the configuration supplies: each bound
/// that it supplies is taken as it is, and each that it leaves open is the
/// default.
pub open spec fn configured_pool_options(
    max_connections: Option<u32>,
    max_lifetime_secs: Option<u64>,
) -> PoolOptions {
    PoolOptions {
        max_connections: match max_connections {
            Some(n) => n,
            None => default_pool_options().max_connections,
        },
        max_lifetime_secs: match max_lifetime_secs {
            Some(secs) => secs,
            None => default_pool_options().max_lifetime_secs,
        },
    }
}

/// The bounds with which this service opens its pool where its
/// configuration supplies none: a thousand connections, each of them for
/// half an hour at most.
pub fn pool_options() -> (options: PoolOptions)
    ensures
        options == default_pool_options(),
{
    PoolOptions { max_connections: 1000, max_lifetime_secs: 30 * 60 }
}

impl PoolOptions {
    /// The bounds with which the pool is opened, from what the configuration
    /// supplies.
    pub fn from_config(
        max_connections: Option<u32>,
        max_lifetime_secs: Option<u64>,
    ) -> (options: PoolOptions)
        ensures
            options == configured_pool_options(max_connections, max_lifetime_secs),
    {
        let default = pool_options();
        PoolOptions {
            max_connections: match max_connections {
                Some(n) => n,
                None => default.max_connections,
            },
            max_lifetime_secs: match max_lifetime_secs {
                Some(secs) => secs,
                None => default.max_lifetime_secs,
            },
        }
    }
}

/// Makes the correlation identifier of a request. An identifier that the
/// request may bring along is never looked at: each request gets one of its
/// own.
#[derive(Clone, Copy, Debug)]
pub struct MakeRequestUuid;

impl MakeRequestUuid {
    /// A fresh random identifier. It never fails.
    pub fn make_request_id(&mut self) -> (id: Option<RequestId>)
        ensures
            id matches Some(request_id) && request_id.uuid.is_random(),
    {
        Some(RequestId::new(Uuid::new_v4()))
    }
}

/// The routes of this service map `GET /health_check` to the liveness probe
/// and `POST /subscriptions` to the subscription handler; every other method
/// and path has no handler, which stands for 404.
pub proof fn lemma_standard_lookup(method: MethodView, path: Seq<char>)
    ensures
        is_routing_table(standard_routes()),
        lookup(standard_routes(), method, path) == if method == MethodView::Get && path
            == "/health_check"@ {
            Some(Handler::HealthCheck)
        } else if method == MethodView::Post && path == "/subscriptions"@ {
            Some(Handler::Subscribe)
        } else {
            None
        },
{
    let routes = standard_routes();
    assert(routes.len() == 2);
    if is_served(routes, method, path) {
        let c = choose|c: int| 0 <= c < routes.len() && serves(#[trigger] routes[c], method, path);
        assert(c == 0 || c == 1);
    }
    if method == MethodView::Get && path == "/health_check"@ {
        assert(serves(routes[0], method, path));
    }
    if method == MethodView::Post && path == "/subscriptions"@ {
        assert(serves(routes[1], method, path));
    }
}

} // verus!
