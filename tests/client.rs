use ferinth::client::{FileExt, Ferinth, Method, API_BASE_URL};
use ferinth::error::RequestError;
use ferinth::json::ids_to_json;

fn client() -> Ferinth {
    Ferinth::new("app", Some("1.0"), Some("me@example.org"), None)
}

#[test]
fn new_builds_user_agent() {
    let c = client();
    assert_eq!(c.base_url, API_BASE_URL);
    assert_eq!(c.user_agent, "app/1.0 (me@example.org)");
    assert_eq!(c.token, None);
    let bare = Ferinth::new("app", None, None, Some("tok-123"));
    assert_eq!(bare.user_agent, "app");
    assert_eq!(bare.token.as_deref(), Some("tok-123"));
    assert_eq!(Ferinth::new("app", None, Some("c"), None).user_agent, "app (c)");
}

#[test]
fn get_project_request() {
    let r = client().get_project("AANobbMI").unwrap();
    assert_eq!(r.method, Method::Get);
    assert_eq!(r.url, "https://api.modrinth.com/v2/project/AANobbMI");
    assert!(r.url.ends_with("/project/AANobbMI"));
    assert_eq!(r.content_type, None);
    assert!(r.body.is_empty());
}

#[test]
fn get_project_rejects_bad_slug() {
    assert_eq!(client().get_project("bad/slug").unwrap_err(), RequestError::NotBase62);
}

#[test]
fn get_multiple_projects_request() {
    let r = client().get_multiple_projects(&["AANobbMI", "P7dR8mSH"]).unwrap();
    assert_eq!(r.method, Method::Get);
    assert_eq!(
        r.url,
        "https://api.modrinth.com/v2/projects?ids=%5B%22AANobbMI%22%2C%22P7dR8mSH%22%5D"
    );
}

#[test]
fn get_multiple_projects_rejects_bad_member() {
    let r = client().get_multiple_projects(&["AANobbMI", "a b"]);
    assert_eq!(r.unwrap_err(), RequestError::NotBase62);
}

#[test]
fn ids_json_array() {
    assert_eq!(ids_to_json(&["a", "b-c"]).unwrap(), "[\"a\",\"b-c\"]");
    assert_eq!(ids_to_json(&[]).unwrap(), "[]");
}

#[test]
fn get_random_projects_request() {
    let r = client().get_random_projects(5);
    assert_eq!(r.method, Method::Get);
    assert_eq!(r.url, "https://api.modrinth.com/v2/projects_random?count=5");
}

#[test]
fn does_exist_request() {
    let r = client().does_exist("sodium").unwrap();
    assert_eq!(r.url, "https://api.modrinth.com/v2/project/sodium/check");
    assert_eq!(client().does_exist("so dium").unwrap_err(), RequestError::NotBase62);
}

#[test]
fn dependencies_request() {
    let r = client().get_project_dependencies("fabric-api").unwrap();
    assert_eq!(r.method, Method::Get);
    assert_eq!(r.url, "https://api.modrinth.com/v2/project/fabric-api/dependencies");
}

#[test]
fn gallery_request_with_all_fields() {
    let r = client()
        .add_gallery_image(
            "AANobbMI",
            &[1, 2, 3],
            FileExt::PNG,
            true,
            Some("Test image".to_string()),
            Some("This is a test image".to_string()),
        )
        .unwrap();
    assert_eq!(r.method, Method::Post);
    assert_eq!(
        r.url,
        "https://api.modrinth.com/v2/project/AANobbMI/gallery?ext=png&featured=true&title=Test%20image&description=This%20is%20a%20test%20image"
    );
    assert_eq!(r.content_type.as_deref(), Some("image/png"));
    assert_eq!(r.body, vec![1, 2, 3]);
}

#[test]
fn gallery_request_without_optional_fields() {
    let r = client()
        .add_gallery_image("abc", &[], FileExt::WebP, false, None, None)
        .unwrap();
    assert_eq!(
        r.url,
        "https://api.modrinth.com/v2/project/abc/gallery?ext=webp&featured=false"
    );
    assert_eq!(r.content_type.as_deref(), Some("image/webp"));
    let bad = client().add_gallery_image("a/b", &[], FileExt::GIF, false, None, None);
    assert_eq!(bad.unwrap_err(), RequestError::NotBase62);
}

#[test]
fn follow_and_unfollow_requests() {
    let f = client().follow("ok-zoomer").unwrap();
    assert_eq!(f.method, Method::Post);
    assert_eq!(f.url, "https://api.modrinth.com/v2/project/ok-zoomer/follow");
    assert_eq!(f.content_type.as_deref(), Some("application/json"));
    assert_eq!(f.body, b"\"\"".to_vec());
    let u = client().unfollow("ok-zoomer").unwrap();
    assert_eq!(u.method, Method::Delete);
    assert_eq!(u.url, "https://api.modrinth.com/v2/project/ok-zoomer/follow");
    assert_eq!(client().follow("x?y").unwrap_err(), RequestError::NotBase62);
    assert_eq!(client().unfollow("x?y").unwrap_err(), RequestError::NotBase62);
}

#[test]
fn file_ext_names() {
    assert_eq!(FileExt::JPEG.as_str(), "jpeg");
    assert_eq!(FileExt::SVGZ.as_str(), "svgz");
    assert_eq!(FileExt::RGB.as_str(), "rgb");
}

#[test]
fn projects_by_json_ids_request() {
    let r = client().get_projects_by_json_ids("[\"a b\"]".to_string());
    assert_eq!(r.method, Method::Get);
    assert_eq!(r.url, "https://api.modrinth.com/v2/projects?ids=%5B%22a%20b%22%5D");
}

#[test]
fn get_multiple_projects_four_ids() {
    let ids = ["AANobbMI", "P7dR8mSH", "gvQqBUqZ", "YL57xq9U"];
    let r = client().get_multiple_projects(&ids).unwrap();
    assert_eq!(r.method, Method::Get);
    assert_eq!(
        r.url,
        "https://api.modrinth.com/v2/projects?ids=%5B%22AANobbMI%22%2C%22P7dR8mSH%22%2C%22gvQqBUqZ%22%2C%22YL57xq9U%22%5D"
    );
    let json = ids_to_json(&ids).unwrap();
    assert_eq!(json, r#"["AANobbMI","P7dR8mSH","gvQqBUqZ","YL57xq9U"]"#);
}

#[test]
fn get_multiple_projects_empty_list() {
    let r = client().get_multiple_projects(&[]).unwrap();
    assert_eq!(r.method, Method::Get);
    assert_eq!(r.url, "https://api.modrinth.com/v2/projects?ids=%5B%5D");
}

#[test]
fn ids_json_decodes_back() {
    let ids = ["a", "b-c", "a", "Z9"];
    let json = ids_to_json(&ids).unwrap();
    let back: Vec<String> = serde_json::from_str(&json).unwrap();
    assert_eq!(back, ids.iter().map(|s| s.to_string()).collect::<Vec<String>>());
}
