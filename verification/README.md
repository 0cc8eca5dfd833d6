# Jonect

Jonect streams the audio of a Linux computer (recorded from PulseAudio) to
devices on the network. A device connects to the server over TCP, the two
exchange JSON messages framed by a big-endian length, and the server then
offers an audio stream on a second TCP connection.

Ports: 8080 for device connections, 8082 for audio data connections (both on
all addresses), 8081 for the GUI connection (local connections only).

## Layout

- `src/` is the library, verified with Verus. It holds the decisions of every
  component as functions from state and event to next state and action, each
  with a contract:
  - `utils`: the frame format of a message connection and the reader of
    incoming frames;
  - `server::device`: device connections (ids, pings, the handshake, the
    audio data connection);
  - `server::audio::pulseaudio`: the PulseAudio thread's state, the queue of
    events that wait for the context, and the recording buffer;
  - `server::ui`, `server::message_router`: the UI connection and the router
    between components;
  - `logic`: the server loop (audio server, device manager, quit progress);
  - `client`, `settings`, `ui`: the test client, the settings file and the
    GTK user interface's decisions;
  - `bytes_buffer`, `errors`: the outside types the library uses, with the
    contracts of the calls made into them.
- `tests/` runs the library on concrete inputs.
- `app/` is the program: command line, sockets and tasks (tokio), PulseAudio,
  GTK, TOML and JSON. It performs the actions that the library decides on.

## Running

    jonect                 # server
    jonect gui             # GTK user interface for a running server
    jonect client -a localhost:8080   # test client
