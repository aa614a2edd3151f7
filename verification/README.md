# Fuchsia

The verified core of an actor-based dataflow runtime.

A workflow is a graph of actors. The runtime owns each actor's receive loop: it
pulls one delivery from a bounded mailbox, hands the message to the actor, applies
the node's failure policy to the outcome, and reports that outcome once on the
delivery's ack. What the runtime decides and computes is written in Verus, with
contracts, and proved; what it merely drives (tasks, timers, channels, files, a
document store) is ordinary Rust around it.

## What is proved

- **Acks.** An errored message is acknowledged as a success exactly where the node
  survives and the runtime took responsibility for it, by a dead letter or an
  error envelope. Where the node dies, or nothing took the message, the ack
  carries what the actor answered last.
- **Retries.** A handling is attempted at least once, at most as often as its
  policy allows, and always ends.
- **Quarantine.** A delivery handed over too often never reaches its actor: it is
  preserved on the node's sink or counted, and acknowledged.
- **Restarts.** A node dies when the crashes charged to it exceed its budget, and
  not before. A poison message costs a node one restart and never kills a node
  that had one to spend. A deliberate stop is never restarted, and a node whose
  whole runtime is dropped ends cleanly, whatever its budget.
- **Execution.** A wave of a workflow holds exactly the nodes whose upstream has
  completed, each once; every result stands under the node it is of; an execution
  takes at most one successful wave per node; a finished execution of a graph
  without cycles has completed exactly the workflow's nodes.
- **Runs.** An error envelope is emitted in the run of the message that caused it,
  and a message an actor schedules to itself stays in its run.
- **Identities.** A workflow's id reads back from its text; a source of run ids or
  task numbers never gives the same one twice before its numbers are used up.

## Layout

- `src/` is the library.
  - `actor`, `correlation`, `delivery`, `dead_letter`, `mailbox`, `schedule`:
    messages and how they are delivered.
  - `registry`, `policy`, `supervisor`, `runtime`, `error`: running actors.
  - `workflow`, `locked`, `orchestrator`, `components`: workflows, their execution
    and their guests.
  - `json`, `table`, `text`, `counter`: values underneath.
- `tests/` exercises the library with the real channels, spans and ids.
- `app/` is the host: tokio tasks and timers around the core, the capability bag,
  workflow storage, and task execution.
