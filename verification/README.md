# maki-providers

Which providers of language models there are, which models each of them offers, and how a request
for a model reaches its provider. The library is written in Rust and proved with Verus.

- `src/provider.rs`, `src/plan.rs`: the kinds of providers, and which provider serves a kind or a
  model.
- `src/catalog/`: the provider index, the third-party providers that it offers, and their keys.
- `src/opencode/`: the two first-party services, Zen and Go: what each takes from the index, how a
  model identifier is looked up, and what the services share while the program runs.
- `src/discovery.rs`: the models that can be chosen.
- `src/laws/`: what holds of the library as a whole.
- `src/assoc.rs`, `src/text.rs`, `src/sorting.rs`, `src/credentials.rs`, `src/host.rs`: maps, texts,
  ordered lists, and what was found in the surroundings.
- `app/`: the providers at work, with locks, tasks and requests.
- `tests/`: the library on concrete values.

Prices are bit patterns of double-precision numbers, so that they are kept exactly. What
the library only carries along is a number that the rest of the program knows it by. What is read from
the environment, from storage and from the configuration is handed to the library as plain values.

Two things are taken from the standard library without proof: that `Arc::<str>::from` keeps the
text, and that the debug form of a list of texts depends on the texts alone.
