# serve

The domain logic of the Serve social networking backend (a GraphQL API for
posts, comments, stories, direct messages, polls, bookmarks, follows and
notifications), verified with Verus.

## Layout

- `src/` — the verified library.
  - `text.rs`, `codec.rs`, `ids.rs`, `time.rs`: Unicode white space and
    trimming, words and `@`/`#` markers, Base64 and UTF-8, UUID text,
    RFC 3339 instants.
  - `domain/`: error codes and errors, the model types and their
    enumerations, input validation, notification drafts.
  - `application/`: the services (over a store type chosen by the server)
    and the decisions they take: login and sign-up checks, follow routing,
    direct-message checks, analytics access, TOTP secrets and codes, and
    the resolution of the acting user.
  - `graphql/`: pagination cursors and page requests, the schema's
    enumerations and object types with the decisions of their resolvers,
    the checks and notifications of the mutations, and the delivery rules
    of the subscriptions.
- `tests/` — tests of the library on concrete values.
- `app/` — the server around the library: the asynchronous store and
  event-publishing interfaces, the services' asynchronous operations and the
  GraphQL schema built with `async-graphql`.
