//! The two pages the application routes between, by path.

use vstd::prelude::*;

verus! {

#[derive(Clone, Copy, Debug, PartialEq, Eq, Structural)]
pub enum Route {
    TaggingPage,
    NewTagPage,
}

impl Route {
    /// The path this page lives under.
    pub open spec fn path_view(self) -> Seq<char> {
        match self {
            Route::TaggingPage => "/tagging"@,
            Route::NewTagPage => "/new_tag"@,
        }
    }

    pub fn to_path(&self) -> (r: String)
        ensures
            r@ == self.path_view(),
    {
        match self {
            Route::TaggingPage => "/tagging".to_owned(),
            Route::NewTagPage => "/new_tag".to_owned(),
        }
    }

    /// Which page a path names: exactly the two known paths are recognized.
    pub fn recognize(path: &String) -> (r: Option<Route>)
        ensures
            r == Some(Route::TaggingPage) <==> path@ == "/tagging"@,
            r == Some(Route::NewTagPage) <==> path@ == "/new_tag"@,
            r is None <==> path@ != "/tagging"@ && path@ != "/new_tag"@,
    {
        proof {
            reveal_strlit("/tagging");
            reveal_strlit("/new_tag");
            assert("/tagging"@[1] == 't');
            assert("/new_tag"@[1] == 'n');
            assert("/tagging"@ != "/new_tag"@);
        }
        let tagging = "/tagging".to_owned();
        let new_tag = "/new_tag".to_owned();
        if *path == tagging {
            Some(Route::TaggingPage)
        } else if *path == new_tag {
            Some(Route::NewTagPage)
        } else {
            None
        }
    }
}

} // verus!
