use vstd::prelude::*;

verus! {

/// Why a read of the platform API failed.
#[derive(Debug, Clone)]
pub enum ApiError {
    /// The call was answered with a status other than 200.
    Status { url: String, code: u16 },
    /// The call could not be made or its body could not be read.
    Transport { url: String, message: String },
    /// The body was not the JSON that the resource kind calls for.
    Decode { url: String, message: String },
}

/// The URL of a resource collection of a namespace on the given host.
pub open spec fn resource_url_of(
    host: Seq<char>,
    group: Seq<char>,
    namespace: Seq<char>,
    kind: Seq<char>,
) -> Seq<char> {
    "https://"@ + host + "/apis/"@ + group + "/v1/namespaces/"@ + namespace + "/"@ + kind
}

fn resource_url(host: &str, group: &str, namespace: &str, kind: &str) -> (r: String)
    ensures
        r@ == resource_url_of(host@, group@, namespace@, kind@),
{
    let mut r = String::from_str("https://");
    r.append(host);
    r.append("/apis/");
    r.append(group);
    r.append("/v1/namespaces/");
    r.append(namespace);
    r.append("/");
    r.append(kind);
    r
}

/// The URL of the builds of a namespace.
pub fn builds_url(host: &str, namespace: &str) -> (r: String)
    ensures
        r@ == resource_url_of(host@, "build.openshift.io"@, namespace@, "builds"@),
{
    resource_url(host, "build.openshift.io", namespace, "builds")
}

/// The URL of the deployment configs of a namespace.
pub fn deployment_configs_url(host: &str, namespace: &str) -> (r: String)
    ensures
        r@ == resource_url_of(host@, "apps.openshift.io"@, namespace@, "deploymentconfigs"@),
{
    resource_url(host, "apps.openshift.io", namespace, "deploymentconfigs")
}

/// The URL of the role bindings of a namespace.
pub fn role_bindings_url(host: &str, namespace: &str) -> (r: String)
    ensures
        r@ == resource_url_of(host@, "authorization.openshift.io"@, namespace@, "rolebindings"@),
{
    resource_url(host, "authorization.openshift.io", namespace, "rolebindings")
}

/// The value of the `Authorization` header for a bearer token.
pub fn bearer_header(token: &str) -> (r: String)
    ensures
        r@ == "Bearer "@ + token@,
{
    let mut r = String::from_str("Bearer ");
    r.append(token);
    r
}

/// Accepts exactly status 200; any other status is an error that carries the
/// URL and the status code as they are.
pub fn check_status(url: &str, code: u16) -> (r: Result<(), ApiError>)
    ensures
        r is Ok <==> code == 200,
        r matches Err(e) ==> (e matches ApiError::Status { url: u, code: c } && u@ == url@ && c
            == code),
{
    if code == 200 {
        Ok(())
    } else {
        Err(ApiError::Status { url: String::from_str(url), code })
    }
}

} // verus!
