# stubborn_io

IO items that recover by themselves from disconnections, with the decisions verified by Verus.

- `src/config.rs`: `ReconnectOptions`, the options that steer recovery (retry schedule,
  whether a failed first attempt ends everything, connection event callbacks).
- `src/reconnect.rs`: the verified machine that decides, from each connection attempt and
  I/O outcome, whether to retry, reconnect, give up or hand a result to the caller, and which
  callback the driver is to run; the laws of the machine are proof functions at the end of the file.
- `src/strategies.rs`: waits between attempts and the cap that a backoff puts on them.
- `app/`: the asynchronous tokio driver (`StubbornIo`, `StubbornTcpStream`), the floating
  point exponential backoff strategy, and a small line-based client.
- `tests/`: the behaviour of the machine and the options on concrete scenarios.
