# rub_daemon

The request router of a browser automation daemon. Clients send commands
(click, type, extract, download, ...); the router decides what each of them
means, what is asked of the browser, and what is answered.

- `src/` is the library: every decision of the router as a function on plain
  values, verified with Verus. What a function returns is stated in its
  `ensures`; what holds across functions is stated in public proof functions.
- `app/` is the daemon around it: the ports to the browser and to the session,
  the decoding of requests, and the loops that wait, read and write.
- `tests/` runs the library.

A command that has to ask the browser something in the middle is a small state
machine in `src/`: a function takes what is known and gives the next question
(`ResolutionStep`, `FieldStep`, `SaveAction`, `WaitStep`, ...), and `app/` asks
it and hands back the answer.

JSON values are `json::Json`, whose view is `json::JsonModel`. Numbers that are
not integers are kept as text; reading and writing them is left to the caller
(`extract_postprocess::FloatReadings`).

The calls into other crates are in `json_text` (serde_json), `web` (reqwest)
and `downloads::asset_save::paths` (time), each with a contract that says what
is believed of it; `text` and `orchestration` do the same for a few functions
of the standard library.
