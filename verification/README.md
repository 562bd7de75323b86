# embassy-ieee802154

A driver that links a network stack to an IEEE 802.15.4 MAC layer. The two run
as separate tasks. Frames to send go to the MAC layer as requests, received
frames come back as indications, over two channels that each hold one message.

- `src/` is the library, verified with Verus. `src/laws.rs` states what holds of
  the link as a whole: that frames leave the driver as they were written and are
  read as they were received, in order and each once, and that a task that got
  no token has left its waker with the channel that it waits for. To wake it is
  up to `embassy-sync`.
- `app/` puts the library to work: it implements the driver traits of
  `embassy-net-driver` and of `dot15d4`, and runs the CSMA device.
- `tests/` runs both ends of a link against each other.

What the library takes on trust stands in `src/channel.rs`: the calls into
`embassy-sync`, each with what it is known to do.
