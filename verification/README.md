# fuyao_core

The core of an agent engine, written in Verus.

A session takes messages from its user, calls a model, runs the tools that the
model asks for and hands their results back, until the model has nothing more to
do. The library holds everything about this that is a matter of deciding and
computing: which entries of which queue are consumed when, what a request looks
like, what is stored and what is shown, what is left to do when a turn is cut
short, when a call is repeated, how a conversation is compressed, which sessions
and providers there are.

- `src/` is the library. Each module states what its functions return over
  mathematical models of the records, and what holds of the whole as proof
  functions whose names start with `law_`. Where work on the outside and
  decisions alternate, there is a machine: `step` takes what happened and returns
  what is to be done next.
- `tests/` runs the library.
- `app/` drives the machines on tokio, against traits for the store, the
  providers, the plugins and the tools.

What is believed without proof is marked in the doc comments of `text`, `json` and
`normalize`: how `str::to_lowercase` and the `Debug` form of a text come out, how
`serde_json` reads and prints JSON, and what `base64` and `image` do.
