# rk-m87-sync

Syncs the system time and volume to the LCD of a Royal Kludge M87 keyboard on
Linux, over hidraw (USB cable: 520-byte feature reports; 2.4 GHz dongle:
20-byte output reports with a checksum).

- `src/` is the verified library: packet formats (`protocol`), device
  recognition, answers and the connection sequence (`hid`), the daemon's
  scheduler (`state`, over the spans of `duration`), errors and events.
  Verus proves the contract of every function there, except two places that
  it trusts: the call of `str::to_uppercase` (whose result it only names) and
  the declaration of `std::io::Error`. The trait `KeyboardSink` states no
  contract. The laws that tie the functions together are the `law_*` proof
  functions.
- `app/` is the program: command line, logging, hidraw file and ioctl access,
  the PulseAudio monitor, signals and the daemon's event loop. It hands plain
  values to the library and performs the actions that the library decides.
- `tests/` runs the library on concrete values.
