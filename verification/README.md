# teams_auth

The `teams auth` command group: logging in, refreshing, inspecting and clearing the tokens with
which the CLI talks to Microsoft Graph.

`src/` is the core, verified with Verus:

| Module | What it holds |
| --- | --- |
| `text` | trimming, word splitting, joining and searching over characters |
| `encoding` | percent-encoding of query values |
| `time` | points in time, expiry |
| `error` | the failures that are reported |
| `claims` | reading the claims of a JSON Web Token, unverified |
| `token` | taking a token from the user, what is stored of it, warnings and diagnostics |
| `consent` | consent scopes, the consent URL, guidance where consent is missing |
| `command` | the commands |
| `report` | what each command prints |
| `session` | a command as a sequence of requests and answers |
| `conversation` | what holds of every such sequence |

`app/` parses arguments, performs the requests through the `Services` trait and prints records as
JSON. Nothing in `src/` does I/O; the one thing read there is the clock.
