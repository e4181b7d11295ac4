# hkdfguard

Wraps and unwraps 32-byte data encryption keys (DEKs) under a persistent key encryption key (KEK)
per service, with the strongest backing for the KEK that the host offers.

    ECDH (P-256)  ->  HKDF-SHA256  ->  AES-256-GCM

The library in `src/` is verified with Verus. The program in `app/` does what touches the world:
files, environment, devices, raw pointers, logging.

## Providers

Wrapping tries the providers in this order, and takes the first that is reachable and gives a key
for the service. Unwrapping takes the provider that the payload names.

| tag | provider | where the private key lives |
|---|---|---|
| 1 | TPM2 | derived inside the TPM from its seed and a label of the service |
| 2 | PKCS#11 | on the token, neither readable nor exportable |
| 3 | External secret | in a mounted file that the platform provides |
| 4 | Software | in a file, encrypted under a vault key beside it |
| 5 | Ephemeral | in the memory of the process |

The first provider other than the ephemeral one that gives a key is settled on for the life of the
process. A service that it declines is looked for in the whole chain, for that one call. `app/`
offers TPM2 and PKCS#11 only where `features` in `app/host.rs` turns them on.

## What is proved

- What was wrapped unwraps to the same key, for the same service and KEK; so do the bytes that the C
  interface hands out and the file that the command writes.
- An unwrap asks the provider that the payload names and no other, and asks nobody for a malformed
  payload.
- A payload survives the wire, and no two runs of bytes are read as the same payload.
- A selection takes the first usable provider and asks no weaker one for a key.
- A key that was stored is loaded again; services do not disturb each other's keys.
- Whatever the failure of an unwrap, the caller's buffer holds zeros afterwards.
- A payload of an accepted service fits 512 bytes.
- A key that a TPM derived is always flushed; a private key on a token is made neither readable
  nor exportable.
- The secure deletion overwrites eight times, with zeros and with the bytes drawn for the pass in
  turn. That the bytes drawn are random is the operating system's part.
- The order of the command line's parts does not matter, nor the spelling of an option.
- No verified function panics or overflows, but for those that draw random bytes where the
  operating system has none to give.

The calls into the cryptographic crates are trusted: their contracts stand in `src/primitives/`,
beside the base64 decoder in `src/initialize/service.rs` and the UTF-8 check in `src/text.rs`.

## Configuration

| variable | provider | purpose |
|---|---|---|
| `HKDFGUARD_SOFTWARE_DIR` | Software | directory of the keys |
| `HKDFGUARD_EXTERNAL_SECRET_DIR` | External secret | directory of the secret files |
| `HKDFGUARD_PKCS11_MODULE` | PKCS#11 | path of the module |
| `HKDFGUARD_PKCS11_SLOT` | PKCS#11 | index of the slot among those with a token |
| `HKDFGUARD_PKCS11_PIN` | PKCS#11 | user PIN |
| `TPM2TOOLS_TCTI`, `TCTI`, `TEST_TCTI` | TPM2 | how to reach the TPM |
