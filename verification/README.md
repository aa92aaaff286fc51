# spotify_rooms

A server where the clients of one Spotify premium account share a room and
queue songs in it.

- `src/` is the verified library: room identifiers and the room-creation
  decisions (`models/room.rs`), the JSON answers of the server
  (`models.rs`, `routes.rs`), the decisions each route takes between its
  calls to the store and to Spotify (`routes/song.rs`, `routes/spotify.rs`),
  the requests sent to Spotify (`spotify_api.rs`) and error messages
  (`utils/`).
- `app/` is the server around it: actix-web routes, the PostgreSQL store
  through diesel, the HTTP calls to Spotify, and serde copies of the
  library's types.
