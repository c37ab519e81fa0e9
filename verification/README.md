# erp_ai

A multi-tenant IAM service with an AI command assistant: organisation chart,
roles and permissions granted per context (department, project, branch), a
human-in-the-loop approval workflow for role assignments, JWT authentication,
and a cached natural-language command endpoint.

- `src/` is the verified library (Verus). It holds the service's rules and
  data handling: request validation, department placement and the nested
  organisation chart, the permission check, the approval workflow, the
  assistant's request/reply handling and cache flow, the migration plan,
  password hashing (argon2) and UUID handling, each with its contract.
- `app/` is the server around it (Axum, sqlx, Redis, reqwest, jsonwebtoken):
  routes, database queries, HTTP calls to the model providers, and the
  serde/sqlx copies of the library's types.
- `tests/` exercises the library on concrete values.
