# subscription

Email subscriptions for a fastn site, with the logic verified in Verus.

A user's data is a JSON object; its `subscription` member holds the
subscribed topics, the sources the subscriptions came from, whether the user
is subscribed at all, the subscriber's contact details and the state of the
double opt-in.

## Layout

- `src/json.rs` – the JSON value the library works on, its mathematical model,
  and member lookup, insertion and removal.
- `src/user_data.rs` – recording a subscription, an unsubscription, a
  confirmation key and a confirmation in a user's data, and reading them back.
- `src/laws.rs` – what holds across those operations (a topic subscribed to is
  recorded, subscribing or unsubscribing twice changes nothing the second
  time, unsubscribing from a topic undoes subscribing to it, nothing is
  listed twice, an unsubscribed topic is no longer
  subscribed, a confirmation clears the key, the updates keep member names
  distinct, a tracker token's user id reads back).
- `src/email.rs`, `src/templates.rs` – the confirmation and welcome emails.
- `src/cookies.rs` – the session and tracker cookies.
- `src/flow.rs` – the decisions of the subscribe, unsubscribe, confirm,
  is-subscribed and set-tracker routes.
- `src/stored.rs` – the user data as the database stores it: JSON text read
  and written with serde_json, and the routes' work on that text.
- `src/text.rs`, `src/numbers.rs` – placeholder substitution, decimal numbers.
- `app/` – the routes themselves: requests, database, sessions, mail queue.
