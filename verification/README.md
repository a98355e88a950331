# lianli_daemon

The service loop of a daemon that drives Lian Li fans, AIO coolers and LCDs on Linux.

`src/` is the decision core, verified with Verus. It owns no device, thread, lock or file: it is told
what happened, and it says what is to be done. A conversation with the core goes in turns. In each
turn the core names the effects to perform, in order, and asks one question; the next turn starts
with the answer.

- `event`: what the loop can be told, and the label under which each event is watched
- `mailbox`: the event queue, and the poll gate that keeps slow polls from piling up
- `mac`: addresses of wireless devices
- `wireless`: when controllers are rebuilt, devices bound again, and channels switched
- `lcd`: what the loop reads of LCD targets
- `turn`, `state`: the conversation, and what is remembered between two turns
- `poll`: the device poll, with the firmware reads of AIO LCDs
- `run`: the loop itself, from its start over each event to its end
- `service`: the service manager, with `run` and `device_poll`
- `streaming`: the worker that streams frames to the LCDs
- `laws`: what holds over whole conversations

`app/` runs the core on real threads, locks and files. Devices and the other subsystems plug in
through its traits.
