use schani_import::web::router::{app_routes, HttpMethod, Route};
use schani_import::web::webservice::{log_line, LISTEN_ADDRESS};
use schani_import::ImportWebService;

#[test]
fn web_service_keeps_its_addresses() {
    let service = ImportWebService::new("postgres://db/imports", "http://library", "http://store");
    assert_eq!(service.database_url(), "postgres://db/imports");
    assert_eq!(service.library_url(), "http://library");
    assert_eq!(service.store_url(), "http://store");
    assert_eq!(LISTEN_ADDRESS, "0.0.0.0:8000");
}

#[test]
fn routes_in_registration_order() {
    let routes = app_routes();
    assert_eq!(
        routes,
        vec![
            Route::GetImports,
            Route::StartImport,
            Route::UploadRawImage,
            Route::UploadSidecar,
            Route::UploadImage,
            Route::FinishUpload,
        ]
    );
    let table: Vec<(HttpMethod, &str, bool)> =
        routes.iter().map(|r| (r.method(), r.path(), r.names_import())).collect();
    assert_eq!(
        table,
        vec![
            (HttpMethod::Get, "/imports", false),
            (HttpMethod::Post, "/imports", false),
            (HttpMethod::Put, "/imports/:id/raw", true),
            (HttpMethod::Put, "/imports/:id/sidecar", true),
            (HttpMethod::Put, "/imports/:id/image", true),
            (HttpMethod::Post, "/imports/:id/finish", true),
        ]
    );
    for (i, a) in table.iter().enumerate() {
        for (j, b) in table.iter().enumerate() {
            if i != j {
                assert!(a.0 != b.0 || a.1 != b.1);
            }
        }
    }
}

#[test]
fn log_line_format() {
    assert_eq!(log_line("schani_import::web", "INFO", "server listening"), "[schani_import::web][INFO]server listening");
    assert_eq!(log_line("", "", ""), "[][]");
}
