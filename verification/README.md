# community_hub

The core of a community web application, with its behaviour stated in
contracts and proved: request throttling, form validation and its error
messages, the steps of signing up, logging in, creating a community and
showing community and user pages, reCAPTCHA verdicts, HTMX response
helpers, deletion-confirmation tokens, the SQL statements of the community
listings, and the table metadata of the `SqlxDbTable` derive.

- `src/` is the library. Each public function states in its contract what
  it returns; the laws that span several calls are public proof functions
  next to the functions they are about. For example, a password stored at
  sign-up is accepted at login, and a throttled request is told to wait at
  most thirty seconds, as long as the clock has not moved back since the
  cooldown started.
- `tests/` runs the library on concrete values.
- `app/` is the Rocket server around it: request guards, forms, template
  rendering, database access and the reCAPTCHA client. It hands the library
  plain values and sends what the library decides.
