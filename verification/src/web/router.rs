//! The routes of the web service.
use vstd::prelude::*;

verus! {

/// The HTTP methods that the routes answer.
#[derive(PartialEq, Eq, Structural, Clone, Copy, Debug)]
pub enum HttpMethod {
    Get,
    Post,
    Put,
}

/// A route of the web service, named by its handler.
#[derive(PartialEq, Eq, Structural, Clone, Copy, Debug)]
pub enum Route {
    GetImports,
    StartImport,
    UploadRawImage,
    UploadSidecar,
    UploadImage,
    FinishUpload,
}

impl Route {
    /// The method that the route answers.
    pub open spec fn spec_method(self) -> HttpMethod {
        match self {
            Route::GetImports => HttpMethod::Get,
            Route::StartImport => HttpMethod::Post,
            Route::UploadRawImage => HttpMethod::Put,
            Route::UploadSidecar => HttpMethod::Put,
            Route::UploadImage => HttpMethod::Put,
            Route::FinishUpload => HttpMethod::Post,
        }
    }

    /// The path pattern of the route; `:id` is the import id.
    pub open spec fn spec_path(self) -> Seq<char> {
        match self {
            Route::GetImports => "/imports"@,
            Route::StartImport => "/imports"@,
            Route::UploadRawImage => "/imports/:id/raw"@,
            Route::UploadSidecar => "/imports/:id/sidecar"@,
            Route::UploadImage => "/imports/:id/image"@,
            Route::FinishUpload => "/imports/:id/finish"@,
        }
    }

    /// Whether the route reads an [`ImportRequestPath`](crate::web::extractors::ImportRequestPath)
    /// from the path.
    pub open spec fn spec_names_import(self) -> bool {
        !(self is GetImports || self is StartImport)
    }

    /// The method that the route answers.
    pub fn method(&self) -> (r: HttpMethod)
        ensures
            r == self.spec_method(),
    {
        match self {
            Route::GetImports => HttpMethod::Get,
            Route::StartImport => HttpMethod::Post,
            Route::UploadRawImage => HttpMethod::Put,
            Route::UploadSidecar => HttpMethod::Put,
            Route::UploadImage => HttpMethod::Put,
            Route::FinishUpload => HttpMethod::Post,
        }
    }

    /// The path pattern of the route; `:id` is the import id.
    pub fn path(&self) -> (r: &'static str)
        ensures
            r@ == self.spec_path(),
    {
        match self {
            Route::GetImports => "/imports",
            Route::StartImport => "/imports",
            Route::UploadRawImage => "/imports/:id/raw",
            Route::UploadSidecar => "/imports/:id/sidecar",
            Route::UploadImage => "/imports/:id/image",
            Route::FinishUpload => "/imports/:id/finish",
        }
    }

    /// Whether the route reads an import id from the path.
    pub fn names_import(&self) -> (r: bool)
        ensures
            r == self.spec_names_import(),
    {
        match self {
            Route::GetImports => false,
            Route::StartImport => false,
            _ => true,
        }
    }
}

/// The routes of the web service, in the order in which they are registered.
pub fn app_routes() -> (r: Vec<Route>)
    ensures
        r@ == seq![
            Route::GetImports,
            Route::StartImport,
            Route::UploadRawImage,
            Route::UploadSidecar,
            Route::UploadImage,
            Route::FinishUpload,
        ],
{
    let mut routes: Vec<Route> = Vec::new();
    routes.push(Route::GetImports);
    routes.push(Route::StartImport);
    routes.push(Route::UploadRawImage);
    routes.push(Route::UploadSidecar);
    routes.push(Route::UploadImage);
    routes.push(Route::FinishUpload);
    assert(routes@ =~= seq![
        Route::GetImports,
        Route::StartImport,
        Route::UploadRawImage,
        Route::UploadSidecar,
        Route::UploadImage,
        Route::FinishUpload,
    ]);
    routes
}

/// No two routes answer the same method on the same path: every request
/// reaches at most one handler.
pub proof fn lemma_routes_are_distinct(a: Route, b: Route)
    requires
        a != b,
    ensures
        a.spec_method() != b.spec_method() || a.spec_path() != b.spec_path(),
{
    reveal_strlit("/imports");
    reveal_strlit("/imports/:id/raw");
    reveal_strlit("/imports/:id/sidecar");
    reveal_strlit("/imports/:id/image");
    reveal_strlit("/imports/:id/finish");
    if a.spec_method() == b.spec_method() && a.spec_path() == b.spec_path() {
        assert(a.spec_path().len() == b.spec_path().len());
        assert(a.spec_path()[13] == b.spec_path()[13]);
    }
}

/// The route table: listing and starting answer `GET` and `POST` on
/// `/imports`, the three uploads answer `PUT` on `/imports/:id/raw`,
/// `/imports/:id/sidecar` and `/imports/:id/image`, and finishing answers
/// `POST` on `/imports/:id/finish`; exactly the routes under an import id
/// read it from the path.
pub proof fn lemma_route_table()
    ensures
        Route::GetImports.spec_method() == HttpMethod::Get && Route::GetImports.spec_path()
            == "/imports"@ && !Route::GetImports.spec_names_import(),
        Route::StartImport.spec_method() == HttpMethod::Post && Route::StartImport.spec_path()
            == "/imports"@ && !Route::StartImport.spec_names_import(),
        Route::UploadRawImage.spec_method() == HttpMethod::Put && Route::UploadRawImage.spec_path()
            == "/imports/:id/raw"@ && Route::UploadRawImage.spec_names_import(),
        Route::UploadSidecar.spec_method() == HttpMethod::Put && Route::UploadSidecar.spec_path()
            == "/imports/:id/sidecar"@ && Route::UploadSidecar.spec_names_import(),
        Route::UploadImage.spec_method() == HttpMethod::Put && Route::UploadImage.spec_path()
            == "/imports/:id/image"@ && Route::UploadImage.spec_names_import(),
        Route::FinishUpload.spec_method() == HttpMethod::Post && Route::FinishUpload.spec_path()
            == "/imports/:id/finish"@ && Route::FinishUpload.spec_names_import(),
{
}

} // verus!
