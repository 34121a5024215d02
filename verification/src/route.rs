//! Route entries and the entrypoint set.
//!
//! The bundler derives, per pathname, one of five route shapes; each shape
//! carries its own endpoints. An endpoint is an opaque recomputable handle —
//! invoking it triggers further recomputation — kept here as an id into the
//! host's handle table, so no engine-internal pointer crosses the boundary.
//! The whole entrypoint set is recomputed as a unit whenever the
//! configuration or the underlying sources change.

use vstd::prelude::*;

verus! {

/// An opaque recomputable endpoint: an id into the host's handle table.
#[derive(Clone, Copy, Debug, PartialEq, Eq, Structural)]
pub struct EndpointHandle {
    pub id: u64,
}

/// One route, by shape. The variants carry disjoint endpoint sets and every
/// consumer matches exhaustively.
pub enum Route {
    Page { html_endpoint: EndpointHandle, data_endpoint: EndpointHandle },
    PageApi { endpoint: EndpointHandle },
    AppPage { html_endpoint: EndpointHandle, rsc_endpoint: EndpointHandle },
    AppRoute { endpoint: EndpointHandle },
    Conflict,
}

/// The middleware entry, when the project has one.
pub struct Middleware {
    pub endpoint: EndpointHandle,
}

/// The recomputed entrypoint set: the routes by pathname, the optional
/// middleware, and the three fixed auxiliary endpoints.
pub struct Entrypoints {
    pub routes: Vec<(String, Route)>,
    pub middleware: Option<Middleware>,
    pub pages_document_endpoint: EndpointHandle,
    pub pages_app_endpoint: EndpointHandle,
    pub pages_error_endpoint: EndpointHandle,
}

/// One route in the flat shape the host bridge delivers: the pathname, the
/// route type as text, and each endpoint the shape carries.
pub struct NapiRoute {
    /// The relative path from the project to the route file.
    pub pathname: String,
    /// The type of route: page, page-api, app-page, app-route or conflict.
    pub route_type: String,
    pub endpoint: Option<EndpointHandle>,
    pub html_endpoint: Option<EndpointHandle>,
    pub rsc_endpoint: Option<EndpointHandle>,
    pub data_endpoint: Option<EndpointHandle>,
}

/// The middleware in the bridge shape.
pub struct NapiMiddleware {
    pub endpoint: EndpointHandle,
}

/// The entrypoint set in the bridge shape.
pub struct NapiEntrypoints {
    pub routes: Vec<NapiRoute>,
    pub middleware: Option<NapiMiddleware>,
    pub pages_document_endpoint: EndpointHandle,
    pub pages_app_endpoint: EndpointHandle,
    pub pages_error_endpoint: EndpointHandle,
}

/// Whether `n` is the bridge rendering of route `r` at `pathname`: the type
/// text matches the shape, the shape's endpoints are carried over, and the
/// endpoints the shape does not have are absent.
pub open spec fn route_rendered(n: NapiRoute, pathname: Seq<char>, r: Route) -> bool {
    &&& n.pathname@ == pathname
    &&& match r {
        Route::Page { html_endpoint, data_endpoint } => {
            &&& n.route_type@ == "page"@
            &&& n.endpoint is None
            &&& n.html_endpoint == Some(html_endpoint)
            &&& n.rsc_endpoint is None
            &&& n.data_endpoint == Some(data_endpoint)
        },
        Route::PageApi { endpoint } => {
            &&& n.route_type@ == "page-api"@
            &&& n.endpoint == Some(endpoint)
            &&& n.html_endpoint is None
            &&& n.rsc_endpoint is None
            &&& n.data_endpoint is None
        },
        Route::AppPage { html_endpoint, rsc_endpoint } => {
            &&& n.route_type@ == "app-page"@
            &&& n.endpoint is None
            &&& n.html_endpoint == Some(html_endpoint)
            &&& n.rsc_endpoint == Some(rsc_endpoint)
            &&& n.data_endpoint is None
        },
        Route::AppRoute { endpoint } => {
            &&& n.route_type@ == "app-route"@
            &&& n.endpoint == Some(endpoint)
            &&& n.html_endpoint is None
            &&& n.rsc_endpoint is None
            &&& n.data_endpoint is None
        },
        Route::Conflict => {
            &&& n.route_type@ == "conflict"@
            &&& n.endpoint is None
            &&& n.html_endpoint is None
            &&& n.rsc_endpoint is None
            &&& n.data_endpoint is None
        },
    }
}

impl NapiRoute {
    /// Render one route in the bridge shape.
    pub fn from_route(pathname: String, value: Route) -> (r: NapiRoute)
        ensures
            route_rendered(r, pathname@, value),
    {
        match value {
            Route::Page { html_endpoint, data_endpoint } => NapiRoute {
                pathname,
                route_type: String::from_str("page"),
                endpoint: None,
                html_endpoint: Some(html_endpoint),
                rsc_endpoint: None,
                data_endpoint: Some(data_endpoint),
            },
            Route::PageApi { endpoint } => NapiRoute {
                pathname,
                route_type: String::from_str("page-api"),
                endpoint: Some(endpoint),
                html_endpoint: None,
                rsc_endpoint: None,
                data_endpoint: None,
            },
            Route::AppPage { html_endpoint, rsc_endpoint } => NapiRoute {
                pathname,
                route_type: String::from_str("app-page"),
                endpoint: None,
                html_endpoint: Some(html_endpoint),
                rsc_endpoint: Some(rsc_endpoint),
                data_endpoint: None,
            },
            Route::AppRoute { endpoint } => NapiRoute {
                pathname,
                route_type: String::from_str("app-route"),
                endpoint: Some(endpoint),
                html_endpoint: None,
                rsc_endpoint: None,
                data_endpoint: None,
            },
            Route::Conflict => NapiRoute {
                pathname,
                route_type: String::from_str("conflict"),
                endpoint: None,
                html_endpoint: None,
                rsc_endpoint: None,
                data_endpoint: None,
            },
        }
    }
}

impl NapiMiddleware {
    /// Render the middleware in the bridge shape.
    pub fn from_middleware(value: &Middleware) -> (r: NapiMiddleware)
        ensures
            r.endpoint == value.endpoint,
    {
        NapiMiddleware { endpoint: value.endpoint }
    }
}

impl NapiEntrypoints {
    /// Render the whole entrypoint set in the bridge shape: each route in
    /// order, the middleware if present, and the three auxiliary endpoints.
    pub fn from_entrypoints(e: Entrypoints) -> (r: NapiEntrypoints)
        ensures
            r.routes@.len() == e.routes@.len(),
            forall|k: int|
                0 <= k < e.routes@.len() ==> route_rendered(
                    #[trigger] r.routes@[k],
                    e.routes@[k].0@,
                    e.routes@[k].1,
                ),
            r.middleware is Some <==> e.middleware is Some,
            r.middleware matches Some(m) ==> e.middleware matches Some(em) && m.endpoint
                == em.endpoint,
            r.pages_document_endpoint == e.pages_document_endpoint,
            r.pages_app_endpoint == e.pages_app_endpoint,
            r.pages_error_endpoint == e.pages_error_endpoint,
    {
        let Entrypoints {
            routes,
            middleware,
            pages_document_endpoint,
            pages_app_endpoint,
            pages_error_endpoint,
        } = e;
        let ghost all = routes@;
        let mut rest = routes;
        let mut rendered: Vec<NapiRoute> = Vec::new();
        while rest.len() > 0
            invariant
                rest@ == all.skip(all.len() - rest@.len()),
                rest@.len() <= all.len(),
                rendered@.len() == all.len() - rest@.len(),
                forall|k: int|
                    0 <= k < rendered@.len() ==> route_rendered(
                        #[trigger] rendered@[k],
                        all[k].0@,
                        all[k].1,
                    ),
            decreases rest@.len(),
        {
            let ghost i = all.len() - rest@.len();
            let (pathname, route) = rest.remove(0);
            proof {
                assert((pathname, route) == all[i]);
                assert(rest@ =~= all.skip(i + 1));
            }
            rendered.push(NapiRoute::from_route(pathname, route));
        }
        let napi_middleware = match &middleware {
            Some(m) => Some(NapiMiddleware::from_middleware(m)),
            None => None,
        };
        NapiEntrypoints {
            routes: rendered,
            middleware: napi_middleware,
            pages_document_endpoint,
            pages_app_endpoint,
            pages_error_endpoint,
        }
    }
}

} // verus!
