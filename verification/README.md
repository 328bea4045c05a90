# rocket_sqlxsession

Cookie-based sessions for Rocket that live in memory and are kept in PostgreSQL.

- `src/` is the library: the settings, the sessions in memory, the steps that take a request to
  its session, what a response leaves behind, and the statements for the database. It is written
  in Verus, and what it does is proved against its contracts. `src/laws.rs` states what holds of
  the sessions as a whole, and `src/table.rs` what the statements do to the table, which is what
  the laws on the database go by. Four contracts are believed, not proved: those of `utc_now` and
  `checked_add_signed`, the clock and its addition, which come from `chrono`; that of
  `sample_alphanumeric`, the random characters of session IDs, which come from `rand`; and that of
  `String::push`.
- `app/` is the request guard and the fairing for Rocket, and the connection to PostgreSQL.
- `tests/` runs the library.

```rust
#[rocket::launch]
fn rocket() -> _ {
    rocket::build()
        .attach(
            SqlxSessionFairing::new()
                .with_database("databasename")
                .with_username("username")
                .with_password("password")
                .with_host("localhost")
                .with_port(5432),
        )
        .mount("/", rocket::routes![index])
}

#[rocket::get("/")]
fn index(session: SQLxSession) -> String {
    let mut count: usize = session.get("count").unwrap_or(0);
    count += 1;
    session.set("count", count);

    format!("{} visits", count)
}
```
