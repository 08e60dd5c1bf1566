# openai_rs_types

Request, response and schema types for the OpenAI HTTP and Realtime APIs,
with the rules that decide which values are accepted, proved with Verus.

- `src/` is the verified library. Each module holds the types of one API
  area (skills, voices, videos, vector stores, images, speech,
  transcription, Realtime sessions and events, structured outputs) with
  their builders, validation and routing by `type` tag, each with a
  contract. `src/json.rs` models JSON values and their compact text;
  `src/structured.rs` normalizes JSON Schemas to the strict subset.
  Public proof functions named `law_*` state properties that relate several
  operations.
- `app/` is the layer Verus does not see: serde encodings, `schemars`
  schemas, the asynchronous tool registry, and the range checks on
  floating-point values, whose outcomes it hands to the library.
- `tests/` exercises the library through its public API.
