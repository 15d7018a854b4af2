# aion_program

A registry of programs and of the resources each program holds, with the
storages that decide who may reach what: credentials of users, owners of
values, per-value allowances guarded by passwords, and reservations.

The library under `src/` is written in Verus and every function in it carries a
contract that Verus proves.

- `registry_implementation/` holds the storages. Each is a finite map kept as a
  vector of entries with pairwise distinct keys (`keyed_entries`), viewed as a
  `Map` from the keys' views; the contracts of `CredentialStorage`,
  `ControlStorage`, `BlacklistStorage`, `RegistryStorage` and
  `ReservationStorage` state each operation over that map, and public proof
  functions state the laws that tie the operations together (a registered
  password verifies, a released value is unowned, an allowance permits its
  access with its password, releasing a list of ids succeeds exactly when each is
  restricted and none repeats, ...). `AccessResult` is what an access hands
  out, and `cast` reads a type-erased resource through `ValueTrait`.
- `program_registry/` holds the identifiers of programs and resources, the
  access a program is held with (`ProgramAccess`: how accesses are accepted,
  merged and released, with the law that a release undoes a merge), the inputs
  and errors of the registry, and `resolution`: the decisions taken while
  resolving an injection (which failures end it, when a missing resource is
  inserted and resolution retried, when it waits for a release).
- `identity` declares `std::any::TypeId` and the equality by view that keys use.

`app/` holds what Verus cannot take: resources erased behind `dyn Any`, the
errors with their `Display` messages, and the stable-address forms of stored
values.

Not carried over: the program registry itself (resolving injections,
acquiring, replacing and releasing programs and resources, waking waiting
resolutions), the waiting future `FutureResolve`, the resolved and cast
resource handles `ResolvedResource` and `CastedResource`, `DerivedResult`, and
the `Shared`/`Injected` injections. They are calls into the registry of the
`aion_state` crate and its `ReleasingResult`, which is not available, and they
rest on injection and access-submission types the code names but never defines;
the decisions they take stand in `program_registry::resolution`.
