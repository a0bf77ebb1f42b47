# axiomvault_cli

The decision logic of the AxiomVault command-line tool (an encrypted-vault
manager), written in Verus and proved against its contracts.

- `src/` is the verified library:
  - `text`: Unicode whitespace, trimming, word splitting, decimal and octal
    rendering, path joining;
  - `hardware_key`: decoding YubiKey challenge-response secrets (plain text or
    `hex:`), and choosing them from the environment variables;
  - `oauth`: which of a flag and two environment variables supplies an OAuth
    setting, parsing the browser callback and answering it;
  - `conversions`: sync modes and intervals;
  - `password`: password rules and the numbered recovery words;
  - `icloud`: iCloud subfolder settings;
  - `raid`: the RAID pool configuration, backend removal and rebuild
    decisions, shard-map reindexing and counting, status and progress lines;
  - `security`: the state machine that publishes a sensitive file without
    replacing anything;
  - `health`: the printed health report;
  - `completions`: where shell completions are installed;
  - `vault_files`: format-migration decisions and folder listings.
- `app/` is the program around it: argument parsing, terminal, network and
  filesystem I/O, and the calls into the vault, storage and sync engines.
- `tests/` exercises the library on concrete values.
