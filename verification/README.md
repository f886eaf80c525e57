# Gelly

The logic of a music player for Jellyfin and Subsonic servers, written and proved in Verus.

- `src/config.rs`: the settings of the player, and the credentials it keeps.
- `src/backend.rs`: how requests fail.
- `src/jellyfin/`: the data, the requests and the paged library of a Jellyfin server.
- `src/subsonic/`: the data, the requests and the answers of a Subsonic server, made into the data
  that the player works with.
- `src/ui/`: what the pages of the player decide without the toolkit.
- `src/text.rs`: trimming, splitting, joining and numbers as text.
- `src/foreign.rs`: every call into another crate, with the contract that is believed of it.
- `app/`: the settings of the desktop, the keyring, the connections and the widgets.
- `tests/`: the library on concrete values, with the other crates linked.

A request to a server is a value: the library makes it, `app/` sends it, and the library says what
the answer means. A function whose name ends in `_request` makes the request for the function of the
same name without that ending, which takes the answer. A function that starts with `try_` makes the
call only where the host is the start of a URL, and says so where it is not. The URL of a stream
also needs room for its parameters: a URL whose path, or whose query before a fragment, is longer
than 32-bit numbers count has none.
