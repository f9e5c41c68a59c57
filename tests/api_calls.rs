use shelflife::api::{
    bearer_header, builds_url, check_status, deployment_configs_url, role_bindings_url, ApiError,
};

#[test]
fn resource_urls() {
    assert_eq!(
        builds_url("api.example.com", "team-x"),
        "https://api.example.com/apis/build.openshift.io/v1/namespaces/team-x/builds"
    );
    assert_eq!(
        deployment_configs_url("api.example.com", "team-x"),
        "https://api.example.com/apis/apps.openshift.io/v1/namespaces/team-x/deploymentconfigs"
    );
    assert_eq!(
        role_bindings_url("api.example.com", "team-x"),
        "https://api.example.com/apis/authorization.openshift.io/v1/namespaces/team-x/rolebindings"
    );
}

#[test]
fn authorization_header() {
    assert_eq!(bearer_header("abc123"), "Bearer abc123");
}

#[test]
fn status_200_is_accepted() {
    assert!(check_status("https://h/x", 200).is_ok());
}

#[test]
fn other_status_carries_url_and_code() {
    match check_status("https://h/x", 404) {
        Err(ApiError::Status { url, code }) => {
            assert_eq!(url, "https://h/x");
            assert_eq!(code, 404);
        }
        other => panic!("unexpected {:?}", other),
    }
    assert!(check_status("https://h/x", 201).is_err());
}
