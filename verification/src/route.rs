use vstd::prelude::*;

verus! {

/// Where a request is sent.
#[derive(Clone, Copy, Debug, PartialEq, Eq, Structural)]
pub enum Route {
    /// `GET /`
    Root,
    /// `GET /health_check`
    HealthCheck,
    /// `GET /database_read`
    Read,
    /// `POST /database_create`
    Create,
    /// `PUT /database_update`
    Update,
    /// `POST /database_delete`
    Delete,
    /// `GET /database_search`
    Search,
    /// Every other method and path.
    NotFound,
}

/// The routing table: the route of each method and path.
pub open spec fn route_for(method: Seq<char>, path: Seq<char>) -> Route {
    if method == "GET"@ && path == "/"@ {
        Route::Root
    } else if method == "GET"@ && path == "/health_check"@ {
        Route::HealthCheck
    } else if method == "GET"@ && path == "/database_read"@ {
        Route::Read
    } else if method == "POST"@ && path == "/database_create"@ {
        Route::Create
    } else if method == "PUT"@ && path == "/database_update"@ {
        Route::Update
    } else if method == "POST"@ && path == "/database_delete"@ {
        Route::Delete
    } else if method == "GET"@ && path == "/database_search"@ {
        Route::Search
    } else {
        Route::NotFound
    }
}

impl Route {
    /// Whether the route's handler reads the query string.
    pub open spec fn takes_parameters(self) -> bool {
        self == Route::Create || self == Route::Update || self == Route::Delete || self
            == Route::Search
    }

    /// Whether the route's handler asks the store for anything.
    pub open spec fn uses_store(self) -> bool {
        self == Route::Read || self.takes_parameters()
    }
}

/// Finds the route of a request by its method and its path. The method is
/// matched as it is written, in upper case; the path without its query string.
pub fn resolve(method: &str, path: &str) -> (route: Route)
    ensures
        route == route_for(method@, path@),
{
    proof {
        lemma_methods_differ();
        lemma_paths_differ();
    }
    if str::eq(method, "GET") {
        if str::eq(path, "/") {
            Route::Root
        } else if str::eq(path, "/health_check") {
            Route::HealthCheck
        } else if str::eq(path, "/database_read") {
            Route::Read
        } else if str::eq(path, "/database_search") {
            Route::Search
        } else {
            Route::NotFound
        }
    } else if str::eq(method, "POST") {
        if str::eq(path, "/database_create") {
            Route::Create
        } else if str::eq(path, "/database_delete") {
            Route::Delete
        } else {
            Route::NotFound
        }
    } else if str::eq(method, "PUT") {
        if str::eq(path, "/database_update") {
            Route::Update
        } else {
            Route::NotFound
        }
    } else {
        Route::NotFound
    }
}

/// The three methods of the routing table are three different words.
proof fn lemma_methods_differ()
    ensures
        "GET"@ != "POST"@,
        "GET"@ != "PUT"@,
        "POST"@ != "PUT"@,
{
    reveal_strlit("GET");
    reveal_strlit("POST");
    reveal_strlit("PUT");
    assert("GET"@.len() == 3);
    assert("POST"@.len() == 4);
    assert("PUT"@[0] == 'P');
    assert("GET"@[0] == 'G');
}

/// What tells the seven paths of the routing table apart: their lengths, and
/// the letter that follows `/database_`.
proof fn lemma_paths_differ()
    ensures
        "/"@.len() == 1,
        "/health_check"@.len() == 13,
        "/database_read"@[10] == 'r',
        "/database_search"@[10] == 's',
        "/database_create"@[10] == 'c',
        "/database_update"@[10] == 'u',
        "/database_delete"@[10] == 'd',
        "/database_read"@.len() == 14,
        "/database_search"@.len() == 16,
        "/database_create"@.len() == 16,
        "/database_update"@.len() == 16,
        "/database_delete"@.len() == 16,
{
    reveal_strlit("/");
    reveal_strlit("/health_check");
    reveal_strlit("/database_read");
    reveal_strlit("/database_search");
    reveal_strlit("/database_create");
    reveal_strlit("/database_update");
    reveal_strlit("/database_delete");
}

} // verus!
