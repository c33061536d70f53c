# FileDrop

Secure, fast file transfer between a laptop and a phone over local Wi-Fi:
receive files from the phone's browser, push files back, share a file behind
a one-time link, keep a folder in sync, pair devices by QR code.

## Layout

- `src/` — the verified library (Verus). The program's decisions are here
  with their contracts: the transfer protocol and its checksums, the receive
  session and the single-device lock, the share server's replies and PIN gate,
  the sync manifest and the listener's steps, the dashboard's queue and log,
  the key handling of every screen (the share configurator too), the QR
  codes and their pairing frame, the folder and share archives, address
  ordering, duration parsing, certificate fingerprints, end-to-end
  encryption framing, the hotspot and install commands. Calls into outside
  crates (`sha2`, `hex`, `aes-gcm`, `hkdf`, `p256`, `base64`, `rand`, `uuid`,
  `rcgen`, `zip`, `qrcode`, `chrono`, `hostname`, `directories`) go through small trusted wrappers whose
  contracts say what the crates' documentation promises.
- `tests/` — tests of the library on concrete values.
- `app/` — the program around the library: the command line, sockets and
  HTTP servers, files on disk, the terminal UI's drawing, mDNS, the file
  watcher, and the floating-point speed and layout arithmetic.

Proved laws include: a file sent unchanged is accepted by its receiver; the
frames of a file reassemble to it; both ends of a key exchange derive the
same session key; encryption nonces never repeat and a
sealed chunk opens to its plaintext; a locked session refuses every other
device; the PIN cookie unlocks exactly the download; address ordering loses
no address; the log stays bounded; de-duplicated watcher events keep the last
event of every path; adding the install directory to `PATH` twice changes
nothing.
