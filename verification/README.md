# trivia_arena

The verified core of Trivia Arena, a real-time multiplayer trivia game served
by three gRPC services (API gateway, authentication service, game engine).

`src/` holds the decisions of the services, each with its contract and a
machine-checked proof:

- `join`: the login/registration saga, rolling a registration back when its
  session cannot be stored;
- `answers`: the handling of one answer, from session lookup to leaderboard
  broadcast;
- `endgame`: persisting the leaderboard into the stored totals;
- `rounds`, `questions`: the question bank, the answer check and a round's payloads;
- `scoring`, `gateway`, `text`, `messages`, `credentials`.

Each flow is a state machine: it takes the outcome of the last action as an
event and returns the next action. `app/` performs the actions against
PostgreSQL, Redis and MongoDB and binds the services to gRPC.
