# spinrt

A small work-stealing async runtime. The library (`src/`) holds the decisions
of the runtime, verified with Verus:

- `scheduler`: tasks, the worker queues (crossbeam-deque), how a worker finds
  its next task and how the workers' queues are built;
- `pacing`: how long a worker rests between passes over its queues;
- `time`: timers on the runtime's monotonic clock;
- `blocking_pool`: the FIFO queue of the blocking pool;
- `handle`: the result slots behind join handles;
- `net`: how the outcome of a non-blocking socket call is read.

`app/` is the program around it: the threads, the clock, the futures and the
sockets (socket2).
