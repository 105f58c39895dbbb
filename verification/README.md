# mpmp

Playback synchronisation between media players over a server: every client
of a lobby follows the same play/pause state, position and speed.

`src/` is the verified library:

- `api`: the messages client and server exchange, and the splitting of a
  receive buffer into its MessagePack values (through `rmp_serde`).
- `float_bits`: positions and speeds held by their IEEE 754 bit patterns,
  compared as numbers.
- `common`: configuration, errors, reading a connection, and the TLS setup
  and handshake (through `openssl`).
- `server`: the lobby's playback state, the difference between two states,
  and the lobby itself: who is connected, what each tick answers, drops and
  announces.
- `player`: what the client makes of server messages, when it reconnects,
  and the media player plugin's synchronisation state machine.

`app/` holds the programs around it: the server's listener and lobby loop,
the client's connection handling, the mpv plugin and a test client, the
serde copies of the messages, and the arithmetic that advances a playback
position with time.
