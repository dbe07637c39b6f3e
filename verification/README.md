# bastionclaw

The decision-making core of a secure assistant gateway, verified with Verus.

- `trinity_verifier`, `jwk`, `crypto`, `base64url`, `verify_error`: verification
  of ES256K ID tokens and a five-minute cache of the issuer's documents.
- `trinity_auth`, `form_url`, `session_token`: the browser sign-in flow.
- `sse`, `replay`, `event_id`: numbering, replay and delivery of events.
- `redact`, `json`: redaction of payroll calls for the log.
- `adoption`: counts of authentications by branch.
- `token_laws`, `auth_laws`, `sse_laws`: what holds across several functions.

Functions that need the network, a store or a channel do not call them: they take
what is known so far and answer with what they need next, or with the outcome.
The crate under `app/` performs those steps. Random bytes, run ids and the wall
clock are drawn in the library, each by a function beside one that takes what was
drawn.
