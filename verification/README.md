# alo_agentd

The decisions the agent service of alo OS makes, written in Verus with their
contracts proved:

- `caller` — who is at the other end of a connection; `-1` is no user or group.
- `arrived_on` — which of this machine's networks a connection arrived on.
- `describing` — which shapes of machine description are read, and what a
  `[questions]` section bounds questions with, and whose bound it is.
- `side`, `lasting`, `described` — the two logins, the lengths of time, and
  the checked machine a description becomes (`describing::AsWritten::checked`).
- `ageing` — when a record kept under a retention rule is shortened.
- `bounding` and `decimal` — what each turn's control group is named.
- `answering` — what a request from the person's shell is answered with.
- `corridor` — the order of what is asked before a question goes down the
  corridor to a paired machine, and what that machine is shown as.
- `choosing_to_answer` — the order of what is asked before a machine is
  chosen to answer the person's questions.
- `answering_discovery` — the decisions of the loop that answers discovery.
- `text` and `refusing` — blank text and equal text; the refusals.

`app/` holds the edges: reading a description's TOML text into the shape the
library checks, and turning `std::net` addresses and the system clock into the
plain values the library takes.
