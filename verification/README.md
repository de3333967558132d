# auv_cli

The verified core of the `auv` command-line frontends, written in Verus.

- `src/` is the library. Every function in it carries a contract that Verus
  proves: the root command tree (`args`, `cli`), registry-backed invoke
  parsing (`registry_cli`, over the model of clap in `clap_model`), typed
  invoke inputs and their decoding (`inputs`, `invoke`, `click`, `color`,
  `routing`, `overlay`, `media`), Runner input action results
  (`input_action`), Device, Run and Runner selection and presentation (`ids`, `devices`,
  `listing`, `tables`), pairing request checks (`pairing`), identities
  (`identity`), external plugin discovery (`plugin`), the app entry points
  (`apps`), and the text helpers they share (`text`, `parse`). Calls into
  `clap`, `uuid`, `hex`, `getrandom` and `std` stand behind small trusted
  wrappers whose contracts are stated next to them.
- `tests/` runs the library on concrete inputs.
- `app/` is the `auv` executable: command-line parsing with clap's derives,
  `PATH` access and process execution for plugins, and printing.
