use srvcs_conevolume::dependency::{Dependency, Deps};
use srvcs_conevolume::identity::{index, CONCERN, SERVICE};
use srvcs_conevolume::openapi::{evaluate_responses, index_responses, openapi_document, ApiDoc};

#[test]
fn openapi_documents_routes() {
    let doc = ApiDoc::openapi();
    let root = doc.paths.paths.get("/").expect("path / present");
    assert!(root.get.is_some());
    assert!(root.post.is_some());
}

#[test]
fn index_reports_all_dependencies() {
    let info = index();
    assert_eq!(info.service, "srvcs-conevolume");
    assert_eq!(info.concern, "geometry: volume of a cone");
    assert_eq!(
        info.depends_on,
        vec!["srvcs-pi", "srvcs-floatmultiply", "srvcs-floatdivide"]
    );
}

#[test]
fn identity_constants() {
    assert_eq!(SERVICE, "srvcs-conevolume");
    assert_eq!(CONCERN, "geometry: volume of a cone");
}

#[test]
fn dependency_names_match_depends_on() {
    let names: Vec<&str> = [Dependency::Pi, Dependency::FloatMultiply, Dependency::FloatDivide]
        .iter()
        .map(|d| d.name())
        .collect();
    assert_eq!(names, index().depends_on);
}

#[test]
fn deps_url_picks_the_configured_endpoint() {
    let deps = Deps {
        pi_url: "http://pi".to_string(),
        floatmultiply_url: "http://mul".to_string(),
        floatdivide_url: "http://div".to_string(),
    };
    assert_eq!(deps.url(Dependency::Pi), "http://pi");
    assert_eq!(deps.url(Dependency::FloatMultiply), "http://mul");
    assert_eq!(deps.url(Dependency::FloatDivide), "http://div");
}

#[test]
fn openapi_document_is_json_with_documented_statuses() {
    let text = openapi_document();
    let doc: serde_json::Value = serde_json::from_slice(&text).expect("the document is JSON");
    assert_eq!(doc["openapi"], "3.1.0");
    assert_eq!(doc["info"]["title"], "srvcs-conevolume");
    let post = &doc["paths"]["/"]["post"];
    assert_eq!(post["operationId"], "evaluate");
    for status in ["200", "422", "500", "503"] {
        assert!(post["responses"][status].is_object(), "status {status} documented");
    }
    assert_eq!(
        post["responses"]["200"]["content"]["application/json"]["schema"]["$ref"],
        "#/components/schemas/ConeVolumeResponse"
    );
    assert_eq!(
        post["responses"]["503"]["description"],
        "a dependency is unavailable"
    );
    assert_eq!(
        post["requestBody"]["content"]["application/json"]["schema"]["$ref"],
        "#/components/schemas/EvalRequest"
    );
    let get = &doc["paths"]["/"]["get"];
    assert_eq!(get["operationId"], "index");
    assert_eq!(
        get["responses"]["200"]["content"]["application/json"]["schema"]["$ref"],
        "#/components/schemas/Info"
    );
    let schemas = &doc["components"]["schemas"];
    assert!(schemas["Info"].is_object());
    assert!(schemas["EvalRequest"].is_object());
    assert!(schemas["ConeVolumeResponse"].is_object());
}

#[test]
fn openapi_documents_components() {
    let doc = ApiDoc::openapi();
    let components = doc.components.expect("components present");
    for name in ["Info", "EvalRequest", "ConeVolumeResponse"] {
        assert!(components.schemas.contains_key(name), "schema {name} present");
    }
    let root = doc.paths.paths.get("/").expect("path / present");
    let post = root.post.as_ref().expect("post documented");
    let statuses: Vec<&String> = post.responses.responses.keys().collect();
    assert_eq!(statuses, vec!["200", "422", "500", "503"]);
}

#[test]
fn documented_response_tables() {
    let statuses: Vec<u16> = evaluate_responses().iter().map(|r| r.status).collect();
    assert_eq!(statuses, vec![200, 422, 500, 503]);
    let index = index_responses();
    assert_eq!(index.len(), 1);
    assert_eq!(index[0].status, 200);
    assert_eq!(index[0].schema, Some("Info"));
}

#[test]
fn index_reports_identity() {
    let info = index();
    assert_eq!(info.service, "srvcs-conevolume");
    assert_eq!(info.concern, "geometry: volume of a cone");
    assert_eq!(info.depends_on, ["srvcs-pi", "srvcs-floatmultiply", "srvcs-floatdivide"]);
}

#[test]
fn openapi_operations_are_read_from_their_texts() {
    let doc = ApiDoc::openapi();
    assert_eq!(doc.paths.paths.len(), 1);
    let root = doc.paths.paths.get("/").expect("path / present");
    assert_eq!(root.get.as_ref().and_then(|op| op.operation_id.clone()), Some("index".to_string()));
    assert_eq!(
        root.post.as_ref().and_then(|op| op.operation_id.clone()),
        Some("evaluate".to_string())
    );
    assert!(root.put.is_none() && root.delete.is_none() && root.patch.is_none());
    assert!(doc.info.title == "srvcs-conevolume");
}

#[test]
fn openapi_post_description_is_the_handler_documentation() {
    let doc = ApiDoc::openapi();
    let root = doc.paths.paths.get("/").expect("path / present");
    let post = root.post.as_ref().expect("post documented");
    let description = post.description.as_deref().expect("post described");
    assert!(description.starts_with("This service owns the *control flow*"));
    assert!(description.contains("\n\n1. `p = pi()` \u{2014} `srvcs-pi`"));
    assert!(description.contains("4. `col = floatmultiply(base, height)` \u{2014} the volume of the enclosing\n   cylinder;"));
    assert!(description.ends_with("reports itself degraded (`503`)."));
    assert_eq!(
        post.summary.as_deref(),
        Some("`POST /` \u{2014} compute the volume of a cone, `V = (1/3) * pi * r^2 * height`.")
    );
    assert!(doc.info.description.is_none());
}
