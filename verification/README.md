# signal-orchestrate

The ordinary signal wire contract of the orchestrate lock authority, written
in Verus.

- `signal` — the closed `Query` / `Response` roots, the lock records they
  carry, and the channel version (contract 1, wire revision 6).
- `codec` — `SignalFrameCodec` for `Frame`: a four-byte little-endian length
  prefix, then an rkyv archive of the frame's version and body. Encoding and
  decoding are proved against their specifications, and decoding what
  encoding produced gives the frame back.
- `schema_emitted` — operation roots, endpoints, two-byte short headers, the
  dispatch traits and the Sema classification; the short header is proved to
  pick exactly one dispatch arm.
- `upgrade_handover` — the drain-with-mirror handover state machines of the
  current and next daemons, with their protocol laws.
- `vocabulary` — role and lane identifiers, scope reasons and the payload
  records of the operations.
- `bootstrap_manifest` — the authority-seated identities.

`app/` holds rkyv-deriving copies of the request and reply records and the
functions that archive and restore them.
