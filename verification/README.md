# community_agent

The logic of `community-agent`, the command-line client for the AWP
Community Worknet, as a Verus library with proved contracts.

- `src/text.rs`: UTF-8 and text helpers (key masking, address shortening,
  truncation, name sanitising, URL encoding, trimming, decimals).
- `src/order.rs`: lexicographic order on strings, used to sort names.
- `src/keyring.rs`: where identities live on disk, the `current` marker,
  api-key precedence, and the sorted list of stored identity names.
- `src/wallet.rs`: EVM address resolution and normalisation, Keccak-256,
  private-key checks and recoverable signing (through `hex`, `sha3`, `k256`).
- `src/output.rs`: the JSON envelope every command prints.
- `src/client.rs`: the server's response types and request paths.
- `src/cmd/`: for every command, the decisions it makes and the output
  it prints for each outcome.

`app/` is the executable: argument parsing, HTTP, the file system, the
`awp-wallet` process and printing. It hands the library plain values and
prints what the library returns.
