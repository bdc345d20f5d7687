# cumulus-test-service

Test nodes for a parachain: how a node is configured, whom it connects to and in which order it is
brought up, with contracts proved by Verus.

- `src/keyring.rs`: the development accounts and their seeds.
- `src/address.rs`: multiaddresses and peer identities.
- `src/config.rs`: the configuration of a test node (`node_config`).
- `src/genesis.rs`: the steps towards the genesis storage (`genesis_plan`).
- `src/plan.rs`: performing steps until all have succeeded or one has failed.
- `src/service.rs`: the steps towards the parts of a node (`new_partial`) and towards a running one
  (`start_node_impl`).
- `src/relay_chain.rs`: the relay chain side of a test node.
- `src/builder.rs`: `TestNodeBuilder`.
- `app/`: performs the steps with the node's crates.
- `tests/`: tests of the library.
