//! Route metadata: the HTTP method model and the route descriptor that every
//! framework adapter produces and consumes.

use vstd::prelude::*;
use crate::auth::AuthPolicy;
use crate::Error;

verus! {

/// The fixed set of HTTP methods a route can declare.
#[derive(Debug, Clone, PartialEq, Eq, Structural)]
pub enum HttpMethod {
    GET,
    POST,
    PUT,
    DELETE,
    PATCH,
}

/// Two characters are equal up to ASCII case: either identical, or the same
/// letter once as `A`..`Z` and once as `a`..`z` (which differ by 32).
pub open spec fn char_eq_ci(a: char, b: char) -> bool {
    a == b
    || (('A' as int) <= (a as int) <= ('Z' as int) && (b as int) == (a as int) + 32)
    || (('A' as int) <= (b as int) <= ('Z' as int) && (a as int) == (b as int) + 32)
}

/// Two strings are equal up to ASCII case, character by character.
pub open spec fn str_eq_ci(a: Seq<char>, b: Seq<char>) -> bool {
    a.len() == b.len() && (forall|i: int| 0 <= i < a.len() ==> char_eq_ci(a[i], b[i]))
}

/// The method a textual name denotes: an ASCII-case-insensitive match against
/// the five known names, and `GET` for everything else. The permissive
/// default is deliberate and preserved for compatibility; a stricter variant
/// would replace this one function.
pub open spec fn method_of(s: Seq<char>) -> HttpMethod {
    if str_eq_ci(s, "GET"@) {
        HttpMethod::GET
    } else if str_eq_ci(s, "POST"@) {
        HttpMethod::POST
    } else if str_eq_ci(s, "PUT"@) {
        HttpMethod::PUT
    } else if str_eq_ci(s, "DELETE"@) {
        HttpMethod::DELETE
    } else if str_eq_ci(s, "PATCH"@) {
        HttpMethod::PATCH
    } else {
        HttpMethod::GET
    }
}

/// Compares two strings for equality up to ASCII case.
fn eq_ci(a: &str, b: &str) -> (r: bool)
    ensures
        r == str_eq_ci(a@, b@),
{
    let an = a.unicode_len();
    let bn = b.unicode_len();
    if an != bn {
        return false;
    }
    let mut i: usize = 0;
    while i < an
        invariant
            i <= an,
            an == a@.len(),
            an == b@.len(),
            forall|j: int| 0 <= j < i ==> char_eq_ci(a@[j], b@[j]),
        decreases an - i,
    {
        let x = a.get_char(i) as u32;
        let y = b.get_char(i) as u32;
        let same = x == y || (65 <= x && x <= 90 && y == x + 32) || (65 <= y && y <= 90 && x == y + 32);
        if !same {
            assert(!char_eq_ci(a@[i as int], b@[i as int]));
            return false;
        }
        i += 1;
    }
    true
}

impl HttpMethod {
    /// Parses a method name, ignoring ASCII case; any unrecognized name,
    /// including garbage, silently maps to `GET`.
    pub fn from_str(method: &str) -> (m: HttpMethod)
        ensures
            m == method_of(method@),
    {
        if eq_ci(method, "GET") {
            HttpMethod::GET
        } else if eq_ci(method, "POST") {
            HttpMethod::POST
        } else if eq_ci(method, "PUT") {
            HttpMethod::PUT
        } else if eq_ci(method, "DELETE") {
            HttpMethod::DELETE
        } else if eq_ci(method, "PATCH") {
            HttpMethod::PATCH
        } else {
            HttpMethod::GET
        }
    }

    /// The canonical upper-case name of this method.
    pub fn name(&self) -> (s: String)
        ensures
            s@ == match self {
                HttpMethod::GET => "GET"@,
                HttpMethod::POST => "POST"@,
                HttpMethod::PUT => "PUT"@,
                HttpMethod::DELETE => "DELETE"@,
                HttpMethod::PATCH => "PATCH"@,
            },
    {
        match self {
            HttpMethod::GET => "GET".to_owned(),
            HttpMethod::POST => "POST".to_owned(),
            HttpMethod::PUT => "PUT".to_owned(),
            HttpMethod::DELETE => "DELETE".to_owned(),
            HttpMethod::PATCH => "PATCH".to_owned(),
        }
    }
}

/// Method lookup is insensitive to ASCII case: two names that agree up to
/// case denote the same method, whichever of the five (or the default) that is.
pub proof fn lemma_method_case_insensitive(s: Seq<char>, t: Seq<char>)
    requires
        str_eq_ci(s, t),
    ensures
        method_of(s) == method_of(t),
{
    assert forall|u: Seq<char>| str_eq_ci(s, u) implies str_eq_ci(t, u) by {
        assert forall|i: int| 0 <= i < t.len() implies char_eq_ci(t[i], u[i]) by {
            assert(char_eq_ci(s[i], t[i]));
            assert(char_eq_ci(s[i], u[i]));
        }
    }
    assert forall|u: Seq<char>| str_eq_ci(t, u) implies str_eq_ci(s, u) by {
        assert forall|i: int| 0 <= i < s.len() implies char_eq_ci(s[i], u[i]) by {
            assert(char_eq_ci(s[i], t[i]));
            assert(char_eq_ci(t[i], u[i]));
        }
    }
}

/// The canonical, framework-agnostic record of one endpoint's metadata.
/// `path` and `method` are set at construction; a descriptor is a plain
/// value, freely copyable, never deduplicated.
#[derive(Debug, Clone)]
pub struct RouteInfo {
    /// The route template; parameter placeholders are not interpreted here.
    pub path: String,
    /// The HTTP method the handler answers.
    pub method: HttpMethod,
    /// The access rule guarding the handler, if any.
    pub auth_policy: Option<AuthPolicy>,
    /// A human-readable description of the endpoint.
    pub description: Option<String>,
}

impl RouteInfo {
    /// Builds a descriptor from the registration inputs: every field reads
    /// back exactly as given, with the method name resolved by
    /// [`HttpMethod::from_str`].
    pub fn new(path: &str, method: &str, policy_expr: Option<&str>, description: Option<&str>) -> (r:
        RouteInfo)
        ensures
            r.path@ == path@,
            r.method == method_of(method@),
            match policy_expr {
                Some(e) => r.auth_policy matches Some(p) && p.policy_expr@ == e@,
                None => r.auth_policy is None,
            },
            match description {
                Some(d) => r.description matches Some(s) && s@ == d@,
                None => r.description is None,
            },
    {
        RouteInfo {
            path: path.to_owned(),
            method: HttpMethod::from_str(method),
            auth_policy: match policy_expr {
                Some(e) => Some(AuthPolicy::new(e)),
                None => None,
            },
            description: match description {
                Some(d) => Some(d.to_owned()),
                None => None,
            },
        }
    }
}

/// The surface a framework adapter implements to accept routes and serve
/// them; handlers are opaque callbacks to this layer.
pub trait UnifiedRouter: Sized {
    /// Registers one route together with its handler.
    fn add_route<F: Fn() -> ()>(&mut self, route_info: RouteInfo, handler: F);

    /// Hands control to the underlying framework.
    fn serve(self) -> Result<(), Error>;
}

} // verus!
