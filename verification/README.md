# meeting_assistant

Detects video meetings by the processes that run on the machine, starts and
stops recordings for them, names the recordings after the calendar, and answers
questions about a meeting on the basis of its transcript.

`src/` is the library, verified with Verus:

- `settings`: the settings of the detection, and the steps of saving them
- `detector`: which processes mean a meeting, and the state of the detection
- `monitor`, `monitor_steps`, `monitor_laws`: what a run of the monitor makes of
  each poll, the monitor step by step, and what holds of whole runs
- `recording`: starting, naming and stopping a recording
- `calendar`: which calendar event names a meeting
- `transcript`, `prompt`, `chat`: the transcript of a meeting, what is put to a
  model, and what has to be looked up for a question
- `clock`: the local time as text
- `text`: the operations on text that the rest is made of

But for reading the clock where a time is put on record, the library performs no
input or output. Where a decision depends on an outside reply, a function takes
the reply and says what to do next.

`app/` is ordinary Rust around it: processes, files, the calendar store of
macOS, and the traits through which a desktop application takes part.

`tests/` runs the library on examples.
