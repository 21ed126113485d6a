# openrouter_stt

The decision logic of a desktop dictation app's cloud transcription backend
(OpenRouter speech-to-text) and of its model-selection commands, written in
Verus and verified.

- `src/` is the verified library:
  - `text` — whitespace trimming, ASCII case folding, code-point order;
  - `json` — a parsed JSON document, member lookup, and JSON string
    literals (through `serde_json`);
  - `catalog` — which catalog entries are speech-to-text models and the
    order in which their ids are listed;
  - `settings` — the settings that transcription reads, the provider record,
    the language hint;
  - `upload` — how an upload exchange can fail and which failures are
    retryable;
  - `retry` — the checks before an upload, the request body every attempt
    carries, and the bounded retry policy;
  - `wav` — the recording format and its WAV encoding (through `hound`);
  - `payload` — the upload content (base64 through `base64`) and its JSON
    request body;
  - `commands` — the local and cloud model switches as state machines.
- `app/` holds what cannot be verified: file I/O, float samples, the HTTP
  client (`reqwest`, `tokio`), parsing response bodies into the library's
  JSON value (`serde_json`), and the drivers that run the command state
  machines against a host.
- `tests/` exercises the library on concrete values.
