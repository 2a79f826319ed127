//! The client's pages, their titles, and what each route shows.

use vstd::prelude::*;
use vstd::string::*;

verus! {

/// The address of the server's HTTP API in a debug build.
pub open spec fn debug_api_url() -> Seq<char> {
    "http://localhost:8000"@
}

/// The address of the server's HTTP API in a release build.
pub open spec fn release_api_url() -> Seq<char> {
    "https://api.zxq5.dev"@
}

/// The address of the server's WebSocket API in a debug build.
pub open spec fn debug_ws_url() -> Seq<char> {
    "ws://localhost:8000"@
}

/// The address of the server's WebSocket API in a release build.
pub open spec fn release_ws_url() -> Seq<char> {
    "wss://api.zxq5.dev"@
}

/// The address of the server's HTTP API, in a debug build or a release one.
pub fn api_url(debug_build: bool) -> (r: String)
    ensures
        r@ == (if debug_build { debug_api_url() } else { release_api_url() }),
{
    if debug_build {
        String::from_str("http://localhost:8000")
    } else {
        String::from_str("https://api.zxq5.dev")
    }
}

/// The address of the server's WebSocket API, in a debug build or a release
/// one.
pub fn ws_url(debug_build: bool) -> (r: String)
    ensures
        r@ == (if debug_build { debug_ws_url() } else { release_ws_url() }),
{
    if debug_build {
        String::from_str("ws://localhost:8000")
    } else {
        String::from_str("wss://api.zxq5.dev")
    }
}

/// The client's routes.
#[derive(Debug)]
pub enum Route {
    Root,
    Login,
    Signup,
    Chat { id: String },
    Profile,
    Logout,
    Invite,
    MemeLicense { username: String },
    Incidents { incident: String },
    NotFound,
}

/// The title of a route, as menus show it.
pub open spec fn route_title(route: Route) -> Seq<char> {
    match route {
        Route::Root => "Home"@,
        Route::Login => "Login"@,
        Route::Signup => "Signup"@,
        Route::Chat { .. } => "Chat"@,
        Route::NotFound => "404"@,
        Route::Profile => "Profile"@,
        Route::Logout => "Logout"@,
        Route::Invite => "Invite"@,
        Route::MemeLicense { .. } => "Meme License"@,
        Route::Incidents { .. } => "Incidents"@,
    }
}

/// The titles that menus show: one per kind of route, whatever its argument,
/// and no two kinds share a title.
pub proof fn lemma_route_titles(a: String, b: String)
    ensures
        route_title(Route::Root) == "Home"@,
        route_title(Route::Login) == "Login"@,
        route_title(Route::Signup) == "Signup"@,
        route_title(Route::Chat { id: a }) == "Chat"@,
        route_title(Route::Chat { id: a }) == route_title(Route::Chat { id: b }),
        route_title(Route::Profile) == "Profile"@,
        route_title(Route::Logout) == "Logout"@,
        route_title(Route::Invite) == "Invite"@,
        route_title(Route::MemeLicense { username: a }) == "Meme License"@,
        route_title(Route::Incidents { incident: a }) == "Incidents"@,
        route_title(Route::NotFound) == "404"@,
{
}

impl Clone for Route {
    fn clone(&self) -> (r: Self)
        ensures
            r == *self,
    {
        match self {
            Route::Root => Route::Root,
            Route::Login => Route::Login,
            Route::Signup => Route::Signup,
            Route::Chat { id } => Route::Chat { id: id.clone() },
            Route::Profile => Route::Profile,
            Route::Logout => Route::Logout,
            Route::Invite => Route::Invite,
            Route::MemeLicense { username } => Route::MemeLicense { username: username.clone() },
            Route::Incidents { incident } => Route::Incidents { incident: incident.clone() },
            Route::NotFound => Route::NotFound,
        }
    }
}

impl Route {
    /// The title of the route, as menus show it.
    pub fn title(&self) -> (r: String)
        ensures
            r@ == route_title(*self),
    {
        match self {
            Route::Root => String::from_str("Home"),
            Route::Login => String::from_str("Login"),
            Route::Signup => String::from_str("Signup"),
            Route::Chat { .. } => String::from_str("Chat"),
            Route::NotFound => String::from_str("404"),
            Route::Profile => String::from_str("Profile"),
            Route::Logout => String::from_str("Logout"),
            Route::Invite => String::from_str("Invite"),
            Route::MemeLicense { .. } => String::from_str("Meme License"),
            Route::Incidents { .. } => String::from_str("Incidents"),
        }
    }
}

/// What the client shows below the navigation bar.
#[derive(Debug)]
pub enum Page {
    RedirectToLogin,
    Login,
    Signup,
    Chat { id: String },
    Incidents { incident: String },
    MemeLicense { username: String },
    NotFound,
}

/// The page of each route: the root redirects to the login page; the
/// profile, logout and invite routes have no page yet and show "not found".
pub open spec fn page_of(route: Route) -> Page {
    match route {
        Route::Root => Page::RedirectToLogin,
        Route::Login => Page::Login,
        Route::Signup => Page::Signup,
        Route::Chat { id } => Page::Chat { id },
        Route::Incidents { incident } => Page::Incidents { incident },
        Route::MemeLicense { username } => Page::MemeLicense { username },
        _ => Page::NotFound,
    }
}

/// Each route with an argument shows its page with that same argument; the
/// root sends to the login page; login and signup show their forms; and
/// exactly the profile, logout, invite and not-found routes show "not found".
pub proof fn lemma_route_pages(id: String, username: String, incident: String)
    ensures
        page_of(Route::Chat { id }) == (Page::Chat { id }),
        page_of(Route::MemeLicense { username }) == (Page::MemeLicense { username }),
        page_of(Route::Incidents { incident }) == (Page::Incidents { incident }),
        page_of(Route::Root) == Page::RedirectToLogin,
        page_of(Route::Login) == Page::Login,
        page_of(Route::Signup) == Page::Signup,
        page_of(Route::Profile) == Page::NotFound,
        page_of(Route::Logout) == Page::NotFound,
        page_of(Route::Invite) == Page::NotFound,
        page_of(Route::NotFound) == Page::NotFound,
        forall|r: Route|
            (#[trigger] page_of(r) is NotFound) <==> (r is Profile || r is Logout || r is Invite
                || r is NotFound),
{
}

/// The page that `route` shows.
pub fn switch(route: Route) -> (p: Page)
    ensures
        p == page_of(route),
        route matches Route::MemeLicense { username } ==> p == (Page::MemeLicense { username }),
        route matches Route::Chat { id } ==> p == (Page::Chat { id }),
        route matches Route::Incidents { incident } ==> p == (Page::Incidents { incident }),
        (p is NotFound) <==> (route is Profile || route is Logout || route is Invite
            || route is NotFound),
{
    match route {
        Route::Root => Page::RedirectToLogin,
        Route::Login => Page::Login,
        Route::Signup => Page::Signup,
        Route::Chat { id } => Page::Chat { id },
        Route::Incidents { incident } => Page::Incidents { incident },
        Route::MemeLicense { username } => Page::MemeLicense { username },
        _ => Page::NotFound,
    }
}

} // verus!
