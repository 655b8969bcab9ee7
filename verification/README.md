# unastar_data

Entity data for a Bedrock server, verified with Verus.

- `src/entities/definitions/registry.rs`: the registry of 126 entity records
  (`EntityDefinitionData`), `all_entities`, and `get`, which looks a record up
  by its namespaced identifier. The registry is proved sorted strictly by
  identifier, so identifiers are unique; each record's `id` is its position;
  every identifier is under `minecraft:`; and `get` gives back exactly the
  record with the identifier asked for, or `None` when there is none.
- `src/entities/definitions/<entity>.rs`: one file per entity with its
  identifier, spawn flags, component groups and events. `definitions/mod.rs`
  proves that each definition is registered with the same spawn flags.
- `src/lexicographic.rs`: strict lexicographic order on character sequences.
- `app/`: the same records with collision box dimensions as `f32` blocks.

Collision box dimensions are whole ten-thousandths of a block in `src/`; the
data has at most four decimal places, so this is exact, and dividing by
10000 in `f32` gives back the same value as the decimal written in the data.
