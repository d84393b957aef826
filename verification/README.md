# docker_monitor

A terminal monitor for Docker containers. The library under `src/` holds its
decisions and is verified with Verus; the program under `app/` talks to the
daemon and to the terminal.

- `container`: containers as the daemon lists them, and the lines made of them
- `stats`: CPU and memory usage of a container from successive readings
- `size`: byte counts in mebibytes
- `round`: one round of collection
- `cache`: collection that spares the daemon
- `collector`: the background task as a state machine
- `monitor`: the selection, the messages and the keys
- `screen`: what is shown
- `clock`, `text`: readings of the clocks, and text helpers

Percentages are floating point. The library works out the integers that they
are made of, carries them as bit patterns and compares them; the program
divides and prints them.
