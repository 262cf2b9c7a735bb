# trae_manager

The verified core of a desktop manager for TRAE Work CN accounts and instances.

- `src/` is the library, checked by Verus: the account store and its rules
  (`account_manager`), instances and their data directories (`instance_manager`), the
  sealed login record that the product keeps (`auth_crypto`), the edits that switching
  accounts makes to the product's `storage.json` (`storage`), the API client's requests
  and the reading of its answers (`api`), the browser login callback (`login`), and the
  product on the machine: process closing steps, registry entries, paths (`machine`).
  `outside` holds the trusted wrappers of the outside crates; the `*_laws` modules hold
  the laws proved over several functions.
- `tests/` runs the library on concrete values.
- `app/` is the program around it: files, network, processes, registry, and a command
  line in place of the desktop shell.
