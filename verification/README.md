# rgb_schemas

The Bridged Inflatable Fungible Asset (BIFA) schema for RGB smart contracts, verified with Verus.

- `src/schema.rs` holds the schema as plain tables and proves that they are consistent and
  follow the claim-baton, supply and linking rules.
- `src/scripts.rs` holds the four validation scripts as AluVM programs and states the checks
  each one performs.
- `src/execution.rs` gives the programs their meaning on an operation, instruction by
  instruction, and proves in closed form what each script accepts and which error number it
  reports for what it rejects. These laws hold of that model of the virtual machine, which is
  written from the AluVM and RGB sources; nothing ties the assembled libraries to it.
- `src/rgb.rs` is the trusted boundary with `rgbstd`, `aluvm` and `strict_types`.
- `src/bifa.rs` builds the RGB schema, type system and validation libraries from the plain
  description; `src/reader.rs` decides what a contract's global state reports.
- `app/` implements the `rgbstd` issuer, schema-wrapper and resolver traits over the library.
