# ln8000_kmdf

A verified driver for the LN8000 charge pump of a tablet.

- `src/` is the library. Every function in it is verified with Verus. It performs
  no input or output: a procedure asks through a session of recorded replies, and
  its contract equates what it does with a function of those replies. Properties
  that span procedures are the public proof functions named `law_*`.
- `tests/` runs the library against benches: an adapter behind a PMIC, a machine on
  which everything works, and the framework's calls.
- `app/` is the framework's side: entry points, registry, locks, the battery class,
  and the machine that performs the library's requests. It needs the Windows Driver
  Kit and the `ln8000` pump core, whose verdicts the library asks for.
