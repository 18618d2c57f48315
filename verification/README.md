# blog_services

The verified core of a blog split into event-driven services.

- `src/` holds the logic, verified with Verus: the posts table (`posts`), the
  comments kept per post (`comments`), random identifiers (`ids`), the events
  the write services emit (`events`), what the query service does with each
  event (`query`), the answer to a create request (`reply`), the publish,
  reconnect and retry steps of the queue producer (`producer`) and the
  subscribers of the event bus (`bus`).
- `app/` is the program around it: the HTTP servers (actix-web), RabbitMQ
  (lapin), MongoDB and the JSON forms of the types. Run it with one of
  `posts`, `posts-queue`, `comments`, `query` or `events` as argument.
