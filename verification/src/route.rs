//! Routes of the application and their URL paths.

use vstd::prelude::*;
use vstd::string::StringExecFns;

verus! {

/// The pages a URL can lead to.
#[derive(Clone, Copy, Debug, PartialEq, Eq, Structural)]
pub enum Route {
    Home,
    Root,
    Settings,
}

impl Route {
    /// The URL path segments of the route.
    pub fn path(&self) -> (p: Vec<&str>)
        ensures
            match self {
                Route::Home | Route::Root => p@.len() == 0,
                Route::Settings => p@.len() == 1 && p@[0]@ == "settings"@,
            },
    {
        match self {
            Route::Home | Route::Root => Vec::new(),
            Route::Settings => {
                let mut p: Vec<&str> = Vec::new();
                p.push("settings");
                p
            },
        }
    }

    /// The route rendered as an absolute URL path: a leading slash followed by
    /// the path segments joined with slashes.
    pub fn path_string(&self) -> (s: String)
        ensures
            match self {
                Route::Home | Route::Root => s@ == "/"@,
                Route::Settings => s@ == "/settings"@,
            },
    {
        match self {
            Route::Home | Route::Root => String::from_str("/"),
            Route::Settings => String::from_str("/settings"),
        }
    }
}

/// What a URL path denotes, judged by its first segment alone: no segment or an
/// empty one leads home, `settings` to the settings page, and anything else is
/// rejected.
pub open spec fn spec_route_of(path: Seq<Seq<char>>) -> Result<Route, ()> {
    if path.len() == 0 || path[0] == ""@ {
        Ok(Route::Home)
    } else if path[0] == "settings"@ {
        Ok(Route::Settings)
    } else {
        Err(())
    }
}

/// Parse the path segments of a URL into a route.
pub fn try_from_path(path: &Vec<String>) -> (r: Result<Route, ()>)
    ensures
        r == spec_route_of(path@.map_values(|s: String| s@)),
{
    proof {
        assert(path@.map_values(|s: String| s@).len() == path@.len());
    }
    if path.len() == 0 {
        Ok(Route::Home)
    } else {
        let ghost segs = path@.map_values(|s: String| s@);
        let first: &String = &path[0];
        proof {
            assert(segs[0] == path@[0]@);
            assert(first@ == path@[0]@);
        }
        if first.as_str().is_empty() {
            proof {
                reveal_strlit("");
                assert(first@ =~= ""@);
            }
            Ok(Route::Home)
        } else {
            let settings = String::from_str("settings");
            if first.eq(&settings) {
                proof {
                    reveal_strlit("");
                    reveal_strlit("settings");
                    assert(segs[0] == "settings"@);
                    assert(segs[0] != ""@);
                }
                Ok(Route::Settings)
            } else {
                proof {
                    reveal_strlit("");
                    assert(segs[0] != ""@);
                    assert(segs[0] != "settings"@);
                }
                Err(())
            }
        }
    }
}

} // verus!
