# oauth2_dcr

Dynamic registration of OAuth 2.0 clients.

- `src/request.rs`: the registration request builder, the members of its
  JSON body, and the plain HTTP request (`HttpRequest`) it turns into.
- `src/json.rs`: compact JSON text of the body; string literals come from
  `serde_json`.
- `src/params.rs`: extra parameters, one per name, the value given last.
- `src/response.rs`: the registration response, its getters, and the client
  made from it.
- `src/error_codes.rs`: registration and basic error codes, read and written
  by their wire names.
- `src/types.rs`, `src/text.rs`: the identifier, secret and URL types, and
  space-delimited scope lists.
- `app/lib.rs`: serde forms of the response and error types, HTTP client
  traits, and sending a request.
