# trouble_host — Security Manager

The Security Manager of a Bluetooth LE host, as a Verus-verified library.

- `src/security_manager/types*`: the Security Manager Protocol commands, their codes and
  their byte encodings, with proofs that decoding inverts encoding.
- `src/security_manager.rs`: the responder side of LE Secure Connections pairing as a
  state machine. `SecurityManager::receive` takes a PDU, `SecurityManager::resume` takes
  the outcome of the last requested action; both are specified by `receive_spec` and
  `resume_spec`. `encode_sm_data` frames a command for the L2CAP Security Manager channel.
- `src/security_manager/laws.rs`: properties proved over the state machine (progress to
  the end of every exchange, refusals, the DHKey check comparison, state consistency).
- `src/bytes.rs`: little-endian encoding of 128-bit values and its round-trip proofs.
- `app/`: the unverified driver that performs the actions (sending frames, randomness,
  the pairing cryptography supplied by the host) for a connection.
