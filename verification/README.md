# aperture

The Aperture gateway as a provider of models, verified with Verus.

The gateway speaks the OpenAI protocol and puts many vendors behind one base URL. A
model of the gateway goes by `vendor/model`. The user's overrides can set its limits
and name the native provider that a vendor really is.

- `src/` is the verified library, on plain values.
  - `text`, `string_map`, `json`: strings, maps keyed by strings, JSON documents.
  - `json_text`: JSON text to documents, by way of `serde_json`.
  - `registry`: what is known about the native providers.
  - `overrides`, `validation`: the user's overrides, and the warnings about them.
  - `routing`, `native`: which native provider a model goes to, and through which client.
  - `listing`: the gateway's list of models.
  - `adjust`: a model's metadata once tables and overrides have had their say.
  - `settings`, `provider`: the base URL, and the provider put together.
  - `laws`: what holds of all this together.
- `app/` reads the environment and the files, turns prices into floating point, and
  sends the requests.
