# vipperfox

The verified core of a desktop tool that manages the VIPs of a Twitch channel.
During a stream it follows the chat through EventSub, grants the VIP role to
viewers whose watch streak reaches a threshold, and when the stream ends it
reports the VIPs who did not write. The operator may then take the role from
VIPs picked in that report, under strict safety rules.

Layout:

- `src/` — the library, verified with Verus:
  - `text.rs`: whitespace trimming, ASCII case folding, decimal numbers, text order;
  - `models.rs`: the records the application tracks and shows;
  - `users.rs`: lists keyed by user id, the set of chatters;
  - `vips.rs`: Helix VIP pages and the stable ordering by lower-case login;
  - `state.rs`: the shared state and every change made to it;
  - `eventsub.rs`: message routing, repeated-delivery window, event handling,
    reconnection policy;
  - `removal.rs`: the rules that guard VIP removal;
  - `twitch.rs`: decisions on Twitch's answers and the texts of errors;
  - `notes.rs`: the entries written to the activity history.
- `app/` — the Tauri application around it: commands, tray, SQLite and keyring
  storage, the HTTP client and the WebSocket monitor.
- `tests/` — tests of the library.
