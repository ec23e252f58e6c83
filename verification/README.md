# web_examples

The request handling of five small web services, verified with Verus.

`src/` is the verified library:

- `reply`: replies as plain values (status, headers, body), HTML pages and redirects.
- `path`: request paths split into segments, percent decoding, and decimal `i32` literals.
- `routing`: methods, refusals (404, 405, 400) and how alternative routes combine.
- `posts`: the posts API under `/api/v1/posts`, its listing limit and its not-found answer.
- `session`: a login flow kept in a session, with the laws that tie signing in and out to the pages.
- `pages`: template rendering with tera and the routes of a template site.
- `logging`: two text pages and the reply made from an error.

`app/` runs the services on finchers: the server, the database, the Redis
session, the template files and the logging. `tests/` exercises the library.
