# bundler

An ERC-4337 relayer and bundler service with a verified core.

- `src/` is the verified library: the user operation (its builders, its
  ABI packing and the hash that identifies it for an entry point and a
  chain), token metadata responses, request checks, the messages that
  failed sends are answered with, and the steps of the transfer, wallet
  search and authentication flows. Each flow that alternates with calls
  to the chain is a state machine: a step takes what the outside work
  brought back and says what to do next.
- `tests/` runs the library on concrete values.
- `app/` is the HTTP service around it: settings, the actix-web routes and
  middleware, the calls to the node, the contracts and the bundler, and
  the records.

The service reads `./config/Development.json`, then
`./config/<RUN_ENV>.json` over it, and these environment variables:
`ADMIN` (comma-separated administrator ids), `PROVIDER_API_KEY`,
`WALLET_PRIVATE_KEY`, `VERIFYING_PAYMASTER_PRIVATE_KEY`, `PORT` (optional),
`FIREBASE_PROJECT_ID` and `GOOGLE_ACCESS_TOKEN`.
