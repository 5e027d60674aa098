//! The application shell: the document's metadata and the table of routes.

use vstd::prelude::*;

verus! {

/// Title of the document.
pub const TITLE: &'static str = "Welcome to Leptos";

/// Identifier of the stylesheet link.
pub const STYLESHEET_ID: &'static str = "leptos";

/// Where the stylesheet is served.
pub const STYLESHEET_HREF: &'static str = "/pkg/start-axum-workspace.css";

/// Path of the root route.
pub const ROOT_PATH: &'static str = "";

/// A page that a route can lead to.
#[derive(Clone, Copy, Debug, PartialEq, Eq, Structural)]
pub enum Page {
    /// The home page.
    Home,
}

/// A stylesheet that the document links to.
#[derive(Debug, PartialEq, Eq)]
pub struct Stylesheet {
    pub id: String,
    pub href: String,
}

/// Mathematical content of a [`Stylesheet`].
pub struct SpecStylesheet {
    pub id: Seq<char>,
    pub href: Seq<char>,
}

impl View for Stylesheet {
    type V = SpecStylesheet;

    open spec fn view(&self) -> SpecStylesheet {
        SpecStylesheet { id: self.id@, href: self.href@ }
    }
}

/// One entry of the navigation table: the page shown at a path.
#[derive(Debug, PartialEq, Eq)]
pub struct Route {
    pub path: String,
    pub page: Page,
}

/// Mathematical content of a [`Route`].
pub struct SpecRoute {
    pub path: Seq<char>,
    pub page: Page,
}

impl View for Route {
    type V = SpecRoute;

    open spec fn view(&self) -> SpecRoute {
        SpecRoute { path: self.path@, page: self.page }
    }
}

/// The view of each route of a table, in order.
pub open spec fn routes_view(routes: Seq<Route>) -> Seq<SpecRoute> {
    routes.map_values(|route: Route| route@)
}

/// What the shell sets up: one stylesheet, the document title, and the routes.
#[derive(Debug, PartialEq, Eq)]
pub struct Application {
    pub stylesheet: Stylesheet,
    pub title: String,
    pub routes: Vec<Route>,
}

/// Mathematical content of an [`Application`].
pub struct SpecApplication {
    pub stylesheet: SpecStylesheet,
    pub title: Seq<char>,
    pub routes: Seq<SpecRoute>,
}

impl View for Application {
    type V = SpecApplication;

    open spec fn view(&self) -> SpecApplication {
        SpecApplication {
            stylesheet: self.stylesheet@,
            title: self.title@,
            routes: routes_view(self.routes@),
        }
    }
}

/// The application: its stylesheet, its title, and a navigation table with
/// exactly one route, from the root path to the home page.
pub open spec fn application() -> SpecApplication {
    SpecApplication {
        stylesheet: SpecStylesheet { id: STYLESHEET_ID@, href: STYLESHEET_HREF@ },
        title: TITLE@,
        routes: seq![SpecRoute { path: ROOT_PATH@, page: Page::Home }],
    }
}

/// Describes the application. There is one route and no other: what happens
/// at any other path is left to the host.
#[allow(non_snake_case)]
pub fn App() -> (app: Application)
    ensures
        app@ == application(),
{
    let mut routes: Vec<Route> = Vec::new();
    routes.push(Route { path: ROOT_PATH.to_owned(), page: Page::Home });
    let app = Application {
        stylesheet: Stylesheet { id: STYLESHEET_ID.to_owned(), href: STYLESHEET_HREF.to_owned() },
        title: TITLE.to_owned(),
        routes,
    };
    assert(app@.routes =~= application().routes);
    app
}

} // verus!
