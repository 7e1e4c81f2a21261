# notecrypt_service

The application service of an encrypted note vault: it admits commands, runs them
on workers, reports their events and results, unlocks and locks the vault, keeps
deadlines, and carries the security transitions through which a vault is created,
moved to new keys or accepted without proof of freshness.

`src/` holds the rules of the service as verified state machines and values:

- `command`, `event`, `error`, `time`, `bytes`: what callers ask and what they hear.
- `ports`: paths, workspaces, editors and secrets, with the rules that validate them.
- `operation`: one operation, its bounded event queue and its result.
- `service`: the scheduler, the mailbox of controls, operation identities, locking,
  security transitions and the handles that callers hold.
- `session`: the unlocked session, its clock and deadlines, leases, workspaces and
  the values that go to and from the repository.
- `local_use_cases`: listing, status, changes, imports and exports, step by step.
- `external_files`: exports to files outside the vault and their cleanup.
- `memory`, `secret`: allocation that can fail, and values that are wiped.
- `laws`: what holds of the machines as a whole, each law with its proof.

The machines own no thread, lock, clock or file. `app/` holds what does: the
threads of the runtime, the lock around the state, and the traits through which a
repository, a workspace provider, external files and editors are reached.

`tests/` runs the library on concrete values.
