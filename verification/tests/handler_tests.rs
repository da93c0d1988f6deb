use github_verify::handler::handle_response;

const FAILED: &str = "Failed to fetch GitHub user information.";

fn full_body() -> String {
    let mut b = String::new();
    b.push_str("{\"login\":\"octocat\",\"id\":583231,");
    b.push_str("\"avatar_url\":\"https://avatars.githubusercontent.com/u/583231?v=4\",");
    b.push_str("\"html_url\":\"https://github.com/octocat\",");
    b.push_str("\"name\":\"The Octocat\",\"company\":\"GitHub\",\"blog\":\"https://github.blog\",");
    b.push_str("\"location\":\"San Francisco\",\"bio\":\"A great cat\",");
    b.push_str("\"public_repos\":8,\"followers\":12345,\"following\":9}");
    b
}

#[test]
fn success_all_fields_renders_template() {
    let reply = handle_response(200, &full_body());
    let expected = "GitHub User: octocat\nName: The Octocat\nBio: A great cat\nPublic Repos: 8\nFollowers: 12345\nFollowing: 9\nProfile: https://github.com/octocat";
    assert_eq!(reply, expected);
}

#[test]
fn success_any_2xx_status_renders() {
    assert!(handle_response(201, &full_body()).starts_with("GitHub User: octocat"));
    assert!(handle_response(299, &full_body()).starts_with("GitHub User: octocat"));
}

#[test]
fn null_name_and_bio_render_na() {
    let mut body = String::new();
    body.push_str("{\"login\":\"ghost\",\"id\":10137,");
    body.push_str("\"avatar_url\":\"https://avatars.githubusercontent.com/u/10137?v=4\",");
    body.push_str("\"html_url\":\"https://github.com/ghost\",");
    body.push_str("\"name\":null,\"company\":null,\"blog\":\"\",\"location\":null,\"bio\":null,");
    body.push_str("\"public_repos\":3,\"followers\":1000,\"following\":0}");
    let reply = handle_response(200, &body);
    let expected = "GitHub User: ghost\nName: N/A\nBio: N/A\nPublic Repos: 3\nFollowers: 1000\nFollowing: 0\nProfile: https://github.com/ghost";
    assert_eq!(reply, expected);
}

#[test]
fn absent_name_and_bio_render_na() {
    let body = "{\"login\":\"ghost\",\"id\":10137,\"avatar_url\":\"a\",\"html_url\":\"h\",\"public_repos\":3,\"followers\":4,\"following\":5}";
    let reply = handle_response(200, body);
    assert_eq!(
        reply,
        "GitHub User: ghost\nName: N/A\nBio: N/A\nPublic Repos: 3\nFollowers: 4\nFollowing: 5\nProfile: h"
    );
}

#[test]
fn non_success_status_fails() {
    assert_eq!(handle_response(404, &full_body()), FAILED);
    assert_eq!(handle_response(500, &full_body()), FAILED);
    assert_eq!(handle_response(403, &full_body()), FAILED);
    assert_eq!(handle_response(301, &full_body()), FAILED);
    assert_eq!(handle_response(199, &full_body()), FAILED);
    assert_eq!(handle_response(0, &full_body()), FAILED);
}

#[test]
fn invalid_json_fails() {
    assert_eq!(handle_response(200, "not json at all"), FAILED);
    assert_eq!(handle_response(200, ""), FAILED);
    assert_eq!(handle_response(200, "{\"login\":\"x\""), FAILED);
    assert_eq!(handle_response(200, "[1,2,3]"), FAILED);
}

#[test]
fn missing_required_field_fails() {
    // followers is absent
    let body = "{\"login\":\"ghost\",\"id\":10137,\"avatar_url\":\"a\",\"html_url\":\"h\",\"public_repos\":3,\"following\":5}";
    assert_eq!(handle_response(200, body), FAILED);
}

#[test]
fn type_mismatch_fails() {
    // login holds a number, then followers holds a string
    let body = "{\"login\":7,\"id\":10137,\"avatar_url\":\"a\",\"html_url\":\"h\",\"public_repos\":3,\"followers\":4,\"following\":5}";
    assert_eq!(handle_response(200, body), FAILED);
    let body2 = "{\"login\":\"ghost\",\"id\":10137,\"avatar_url\":\"a\",\"html_url\":\"h\",\"public_repos\":3,\"followers\":\"4\",\"following\":5}";
    assert_eq!(handle_response(200, body2), FAILED);
}

#[test]
fn trailing_content_fails() {
    let mut body = full_body();
    body.push_str(" x");
    assert_eq!(handle_response(200, &body), FAILED);
}

#[test]
fn surrounding_whitespace_is_fine() {
    let mut body = String::from("  \t\r\n");
    body.push_str(&full_body());
    body.push_str("  \n");
    assert!(handle_response(200, &body).starts_with("GitHub User: octocat"));
}
