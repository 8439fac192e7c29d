# lauta

The verified core of a Finnish imageboard with a chat: who may see and do
what, how forms and requests are checked, how each request handler moves
from one lookup to the next, the chat room server and the websocket session
registries. Verus proves the contract of every function in `src/` except the
small wrappers marked `#[verifier::external_body]`: each of those makes one
call into an outside crate (regex, jsonwebtoken, pbkdf2, password-hash,
rand, ammonia, chrono) or std, and its contract is believed, not proved.

## Layout

- `src/access.rs`: the access levels and their numbers.
- `src/gate.rs`: bans and levels: which pages and actions a user reaches.
- `src/validation.rs`, `src/forms.rs`: the rules of the forms and API inputs.
- `src/password.rs`, `src/auth.rs`: PBKDF2 password hashes, token claims,
  sessions and logins.
- `src/posting.rs`, `src/reply_flow.rs`, `src/thread_flow.rs`: the checks
  of new posts and threads, as state machines driven by the handlers.
- `src/board_api.rs`, `src/account_flow.rs`: the board and account API.
- `src/page_flow.rs`, `src/admin.rs`: board and thread pages, administration.
- `src/chat.rs`, `src/command.rs`, `src/chat_socket.rs`: the chat.
- `src/ws.rs`: the websocket session and service registries.
- `src/catalog.rs`: a board's thread catalog.
- `src/text.rs`, `src/assoc.rs`: strings (trimming, numbers, UTF-8 length)
  and association lists.
- `app/`: an actix-web server around the chat (not verified).

A handler drives a flow by calling `step` with the result of the last action
and carrying out the action it gets back, until the flow answers the request.
