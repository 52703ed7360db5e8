# rscms

A small multi-tenant service: users register and log in (bcrypt-hashed
passwords, HS256 tokens valid for 24 hours), and manage their own
applications, which are stored in MongoDB and visible to their owner only.

- `src/` is the verified library. It holds the decisions of the service:
  reading the bearer token from the `Authorization` header, checking its
  signature and expiry, admitting or refusing a request, registration and login, the selections, pages and
  updates sent to the `apps` collection, the HTTP answers built from what
  the collection returned, and the server settings. Calls of bcrypt,
  jsonwebtoken (signing and decoding), bson identifiers and the clock stand behind
  small trusted wrappers whose contracts say what those crates guarantee.
- `app/` is the server: actix-web routing and middleware plumbing, the
  MongoDB calls, and the JSON/BSON forms of the library's data.
- `tests/` runs the library with the real crates linked.
