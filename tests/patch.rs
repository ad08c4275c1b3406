use cargo_mold::patch::{contains, find_from, patch_routes, rfind, with_module};

const TABLE: &str = "use actix_web::web;\nuse crate::handlers::handlers;\n\npub fn public_routes(cfg: &mut web::ServiceConfig) {\n    cfg.service(\n        web::scope(\"/api\")\n            .route(\"/hello\", web::get().to(handlers::hello))\n    );\n}\n";

#[test]
fn search_positions() {
    assert_eq!(find_from("abcabc", "bc", 0), Some(1));
    assert_eq!(find_from("abcabc", "bc", 2), Some(4));
    assert_eq!(find_from("abcabc", "x", 0), None);
    assert_eq!(find_from("ab", "", 1), Some(1));
    assert_eq!(rfind("abcabc", "bc"), Some(4));
    assert_eq!(rfind("abc", "abcd"), None);
    assert!(contains("pub mod a;", "mod a"));
    assert!(!contains("pub mod a;", "mod b"));
}

#[test]
fn module_declared_once() {
    assert_eq!(with_module("pub mod a;", "b"), Some("pub mod a;\npub mod b;".to_string()));
    assert_eq!(with_module("pub mod a;\npub mod b;", "b"), None);
    assert_eq!(with_module("", "user"), Some("\npub mod user;".to_string()));
}

#[test]
fn routes_wired_in() {
    let out = patch_routes(TABLE, "post");
    let expected = "use actix_web::web;\nuse crate::handlers::handlers;\nuse crate::routes::post_routes;\n\npub fn public_routes(cfg: &mut web::ServiceConfig) {\n    cfg.service(\n        web::scope(\"/api\")\n            .route(\"/hello\", web::get().to(handlers::hello))\n    \n            .configure(post_routes::post_routes));\n}\n";
    assert_eq!(out, expected);
    assert_eq!(patch_routes(&out, "post"), out);
}

#[test]
fn routes_untouched_without_public_routes() {
    let table = "use actix_web::web;\npub fn private_routes() {}\n";
    assert_eq!(patch_routes(table, "post"), table);
}
