# bimp_persona

The persona and transport rules of Bimp's patched Servo, as a verified
library: which request headers reach the impersonating HTTP clients and which
browser profile they impersonate, the navigator, user-agent data, screen,
plugin, media-device and WebGL values that scripts observe, the noise added to
canvas exports, and the decisions of the no-render painter and of storage
start-up.

- `src/` is the library, verified with Verus. Each public function states in
  its `ensures` what it returns, over spec functions that say so directly;
  the `law_*` proof functions state properties that span several calls.
- `src/headers.rs` and `src/client.rs` hold the only trusted items: the
  contracts of the `http` header-map methods and of the `uuid` calls the
  library makes.
- `tests/` runs the library on concrete values.
- `app/` is the unverified glue that Servo's side needs: request and response
  plumbing around the impersonating client, the floating-point `DOMRect`
  rounding, and the conversions between Servo's values and the library's.
