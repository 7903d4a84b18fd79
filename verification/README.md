# pool_indexer

Verified core of a Zephyr program that indexes fixed-term liquidity pools on
Soroban.

- `src/` — the library, verified with Verus:
  - `maths`: which period of a pool a ledger falls in;
  - `pools`: a pool's configuration from its instance storage and its totals
    for the current period from its persistent storage;
  - `simulation`: the contract call a simulation request asks for, and the
    resource margins added to the simulated transaction;
  - `events`: recognising pool deployment events;
  - `strkey`: decoding of contract and account strkeys;
  - `types`: the records the program stores and answers with.
- `app/` — the Zephyr entry points (`on_close`, `get_pools`, `simulate`): host
  reads and writes, and copies of the records with the host's derives.
- `tests/` — tests of the library.
