# glutin_trueos

The TRUEOS vGPU UI4 backend of a GL context library, verified with Verus.

- `src/` holds the backend's decisions, each with a contract: the single
  configuration the host offers and which templates it meets (`config`),
  the display and its handles (`display`, `handle`), the mapping of host
  return codes to errors (`vgpu`, `error`), context creation and the
  make-current / make-not-current state machine with the per-thread record
  of the current context (`context`), window surfaces and the validation of
  what the host reports when it acquires one (`surface`), and the
  properties that span several operations (`laws`).
- The host calls (opening, closing and acquiring through the vGPU C ABI,
  resolving GL entry points) are made in `app/`, which hands their return
  codes and reports to the functions of `src/`, keeps the per-thread record
  in a thread local, and closes a context's device when the context is
  dropped.
