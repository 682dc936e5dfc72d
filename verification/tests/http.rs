use streamline_control::http::{asset_response, hello_text, route, RoutePlan};

#[test]
fn root_redirects_to_app() {
    assert_eq!(route("/"), RoutePlan::RedirectToApp);
}

#[test]
fn app_path_serves_entry_point() {
    assert_eq!(route("/app"), RoutePlan::AppIndex);
}

#[test]
fn static_tree_routes_by_tail() {
    assert_eq!(
        route("/static/css/site.css"),
        RoutePlan::StaticAsset { rest: "css/site.css".to_string() }
    );
    assert_eq!(route("/static/"), RoutePlan::StaticAsset { rest: "".to_string() });
}

#[test]
fn dist_tree_routes_by_tail() {
    assert_eq!(route("/dist/app.js"), RoutePlan::DistAsset { rest: "app.js".to_string() });
}

#[test]
fn hello_takes_one_segment() {
    assert_eq!(route("/hello/world"), RoutePlan::Hello { name: "world".to_string() });
    assert_eq!(route("/hello/a/b"), RoutePlan::NotFound);
}

#[test]
fn unknown_paths_are_not_found() {
    assert_eq!(route("/nope"), RoutePlan::NotFound);
    assert_eq!(route(""), RoutePlan::NotFound);
    assert_eq!(route("/static"), RoutePlan::NotFound);
    assert_eq!(route("app"), RoutePlan::NotFound);
}

#[test]
fn found_asset_gets_inferred_content_type() {
    let body = b"<html></html>".to_vec();
    let r = asset_response("index.html", Some(body.clone()));
    assert_eq!(r.status, 200);
    assert_eq!(r.body, body);
    assert_eq!(r.content_type, "text/html");
}

#[test]
fn unknown_extension_falls_back_to_octet_stream() {
    let r = asset_response("blob.qqzz", Some(vec![1, 2, 3]));
    assert_eq!(r.status, 200);
    assert_eq!(r.content_type, "application/octet-stream");
}

#[test]
fn missing_asset_is_not_found_response() {
    let r = asset_response("gone.js", None);
    assert_eq!(r.status, 404);
    assert!(r.body.is_empty());
}

#[test]
fn hello_text_greets() {
    assert_eq!(hello_text("world"), "Hello, world!");
    assert_eq!(hello_text(""), "Hello, !");
}
