//! OpenAPI document generation: collects route descriptors and renders the
//! (for now fixed) specification document and UI page.

use vstd::prelude::*;
use crate::routing::RouteInfo;

verus! {

/// Collects route descriptors and generates OpenAPI output from them.
pub struct SwaggerGenerator {
    routes: Vec<RouteInfo>,
}

impl SwaggerGenerator {
    /// The routes collected so far, in insertion order.
    pub closed spec fn spec_routes(&self) -> Seq<RouteInfo> {
        self.routes@
    }

    /// A generator holding no routes.
    pub fn new() -> (g: SwaggerGenerator)
        ensures
            g.spec_routes() == Seq::<RouteInfo>::empty(),
    {
        SwaggerGenerator { routes: Vec::new() }
    }

    /// Appends one route; nothing is deduplicated.
    pub fn add_route(&mut self, route: RouteInfo)
        ensures
            final(self).spec_routes() == old(self).spec_routes().push(route),
    {
        self.routes.push(route);
    }

    /// How many routes were added.
    pub fn route_count(&self) -> (n: usize)
        ensures
            n == self.spec_routes().len(),
    {
        self.routes.len()
    }

    /// The OpenAPI specification document. Rendering the collected routes
    /// into it is not implemented yet: the document is a fixed skeleton.
    pub fn generate_openapi_spec(&self) -> (s: String)
        ensures
            s@ == r#"{"openapi": "3.0.0", "info": {"title": "Uni Routing API", "version": "1.0.0"}}"#@,
    {
        r#"{"openapi": "3.0.0", "info": {"title": "Uni Routing API", "version": "1.0.0"}}"#.to_owned()
    }

    /// An HTML page that loads the interactive documentation UI and points it
    /// at the served specification document.
    pub fn generate_swagger_ui(&self) -> (s: String)
        ensures
            s@ == r#"
<!DOCTYPE html>
<html>
<head>
    <title>Uni Routing API Documentation</title>
    <link rel="stylesheet" type="text/css" href="https://unpkg.com/swagger-ui-dist@4/swagger-ui.css" />
</head>
<body>
    <div id="swagger-ui"></div>
    <script src="https://unpkg.com/swagger-ui-dist@4/swagger-ui-bundle.js"></script>
    <script>
        SwaggerUIBundle({
            url: '/swagger/openapi.json',
            dom_id: '#swagger-ui'
        });
    </script>
</body>
</html>
"#@,
    {
        r#"
<!DOCTYPE html>
<html>
<head>
    <title>Uni Routing API Documentation</title>
    <link rel="stylesheet" type="text/css" href="https://unpkg.com/swagger-ui-dist@4/swagger-ui.css" />
</head>
<body>
    <div id="swagger-ui"></div>
    <script src="https://unpkg.com/swagger-ui-dist@4/swagger-ui-bundle.js"></script>
    <script>
        SwaggerUIBundle({
            url: '/swagger/openapi.json',
            dom_id: '#swagger-ui'
        });
    </script>
</body>
</html>
"#.to_owned()
    }
}

impl Default for SwaggerGenerator {
    /// Same as [`SwaggerGenerator::new`]: a generator holding no routes.
    fn default() -> (g: SwaggerGenerator)
        ensures
            g.spec_routes() == Seq::<RouteInfo>::empty(),
    {
        SwaggerGenerator::new()
    }
}

} // verus!
