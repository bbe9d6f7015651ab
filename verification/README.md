# academy_guards

The authorization guards of an escrow contract's mutating entry points,
verified with Verus.

- `src/table.rs`: the entry points, their groups, and the guard table that
  says which guards (initialization, caller authorization, reentrancy,
  emergency mode, global pause, feature pause) protect each of them.
- `src/state.rs`: the guard state, the check that decides whether a call may
  proceed (and which guard refuses it), entering and leaving a guarded call,
  and the administrative calls that steer the guards (initialize, emergency
  mode, global pause, feature pauses, administrator).
- `src/laws.rs`: proved properties of the table and the state: normal
  conditions admit every entry point, emergency mode blocks deposits and
  administration but nothing else, the global pause blocks fund movements but
  never administration, an uninitialized contract refuses privacy, hook and
  maintenance calls, reentrant calls are refused, and pausing then unpausing
  features gives back the earlier mask.

Contract storage, addresses and signature checks belong to the host
environment; here an address is a `u64` and the caller's authorization is a
`bool` handed in by the caller of the library.
