# apodize_core

The core of the Apodize Minecraft launcher: instance management with its
contracts proved by Verus.

- `src/text.rs` – blankness (Unicode white space) and the order of texts.
- `src/instance/model.rs` – ids, instances and their configuration parts.
- `src/instance/schema.rs` – the `instance.toml` schema v1 and the conversions
  between it and the model, with the round trip between the two.
- `src/instance/repository.rs` – the repository interface and the storage layout.
- `src/instance/steps.rs` – create, get, list and delete of the file-backed
  repository as sequences of steps: each names the filesystem or TOML work to
  do next and decides on its answer.
- `src/instance/listing.rs` – the deterministic listing order.
- `src/instance/service.rs` – the application service used by frontends.
- `app/` – the `apodize` command line, and the filesystem calls and TOML
  (de)serialisation that the steps ask for.
