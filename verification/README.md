# noema

The agent layer of Agora: tools and their registry, risk-gated human
approval, escalation policy, configuration, metrics, sessions, the text
router and tool formatter decisions, the Needle engine's binding rules, the
cloud provider's wire format, the Gemma turn mapping, and the rig message
conversions.

## Layout

- `src/` — the library, verified with Verus. Every public function states
  its result in `ensures`; the laws of the library (approval, ids,
  escalation, registry, metrics, sessions, engine weights, calendar dates,
  message round trips) are public proof functions named `law_*`.
- `tests/` — tests of the library on concrete values.
- `app/` — the asynchronous runtime around the library: the event bus, the
  model/router/tool traits, the session driver, logging, the HTTP provider,
  the Needle engine bindings (shared and static library, command line), the
  file-search walk, the confidence bridge, and the rig adapter. Every
  decision these make is a call into the library.
