# mudzidzi

The verified core of the Mudzidzi AI backend, an adaptive O-Level
Mathematics learning platform. The library holds the service's rules with
Verus contracts; the HTTP service around it (Axum, PostgreSQL through sqlx,
Redis, JWT encoding) is in `app/`.

- `src/validation.rs` – register and login payload rules.
- `src/config.rs`, `src/number.rs` – configuration from environment values,
  with integer parsing as Rust's `from_str` does it.
- `src/jwt.rs` – token claims and expiry times.
- `src/auth.rs` – bearer headers, caller identity, refresh sessions, login
  and registration decisions, the token pair issued on success.
- `src/password.rs` – Argon2id hashing and verification.
- `src/ids.rs` – UUID text forms.
- `src/streak.rs` – the consecutive-day study streak.
- `src/students.rs` – student profile and recommendation answers.
- `src/text.rs`, `src/error.rs` – character helpers and the error type.
