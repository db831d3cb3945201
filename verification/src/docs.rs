//! The two pages that show the OpenAPI document in a browser.

use vstd::prelude::*;

verus! {

/// The page that shows the OpenAPI document with ReDoc.
pub open spec fn spec_redoc() -> Seq<char> {
    "<!doctype html>\n<html lang=\"en\">\n  <head>\n    <title>Example API</title>\n    <meta name=\"viewport\" content=\"width=device-width, initial-scale=1\" />\n    <redoc spec-url=\"./openapi.json\"></redoc>\n    <script src=\"https://cdn.redoc.ly/redoc/latest/bundles/redoc.standalone.js\"></script>\n  </head>\n  <body>\n  </body>\n</html>\n"@
}

/// The page that shows the OpenAPI document with Swagger UI.
pub open spec fn spec_swagger() -> Seq<char> {
    "<!doctype html>\n<html lang=\"en\">\n  <head>\n    <meta charset=\"UTF-8\">\n    <meta name=\"viewport\" content=\"width=device-width, initial-scale=1\">\n    <link rel=\"stylesheet\" type=\"text/css\" href=\"//unpkg.com/swagger-ui-dist@3/swagger-ui.css\">\n    <title>Your App API v1</title>\n  </head>\n  <body>\n    <div id=\"docs\" />\n    <script src=\"https://unpkg.com/swagger-ui-dist@3/swagger-ui-bundle.js\"></script>\n    <script>\n      const ui = SwaggerUIBundle({\n        url: \"./openapi.json\",\n        dom_id: \"#docs\",\n        deepLinking: true,\n      })\n    </script>\n  </body>\n</html>"@
}

/// The page that shows the OpenAPI document with ReDoc. It reads the document
/// from `./openapi.json`.
pub fn redoc() -> (r: &'static str)
    ensures
        r@ == spec_redoc(),
{
    "<!doctype html>\n<html lang=\"en\">\n  <head>\n    <title>Example API</title>\n    <meta name=\"viewport\" content=\"width=device-width, initial-scale=1\" />\n    <redoc spec-url=\"./openapi.json\"></redoc>\n    <script src=\"https://cdn.redoc.ly/redoc/latest/bundles/redoc.standalone.js\"></script>\n  </head>\n  <body>\n  </body>\n</html>\n"
}

/// The page that shows the OpenAPI document with Swagger UI. It reads the
/// document from `./openapi.json`.
pub fn swagger() -> (r: &'static str)
    ensures
        r@ == spec_swagger(),
{
    "<!doctype html>\n<html lang=\"en\">\n  <head>\n    <meta charset=\"UTF-8\">\n    <meta name=\"viewport\" content=\"width=device-width, initial-scale=1\">\n    <link rel=\"stylesheet\" type=\"text/css\" href=\"//unpkg.com/swagger-ui-dist@3/swagger-ui.css\">\n    <title>Your App API v1</title>\n  </head>\n  <body>\n    <div id=\"docs\" />\n    <script src=\"https://unpkg.com/swagger-ui-dist@3/swagger-ui-bundle.js\"></script>\n    <script>\n      const ui = SwaggerUIBundle({\n        url: \"./openapi.json\",\n        dom_id: \"#docs\",\n        deepLinking: true,\n      })\n    </script>\n  </body>\n</html>"
}

} // verus!
