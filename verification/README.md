# dns_setter

A Windows DNS switcher and two small ping monitors.

- `src/` is the library, verified with Verus:
  - `domain.rs`: DNS providers and their servers, operations, results and states;
  - `netsh.rs`: the `netsh` commands of each operation, step by step, and the
    reading of what `netsh` prints (active adapter, configured servers);
  - `console.rs`: the first two-button version, which reports on the console;
  - `model.rs`: the state of the DNS setter window and what each action does to it;
  - `ipv4.rs`: checking typed-in server addresses;
  - `ping_monitor.rs`: texts, colour bands and the short history of the ping windows;
  - `text.rs`: character-level helpers (whitespace, decimal numbers, tokens, search).
- `app/` runs the programs: it starts `netsh`, sends the pings, draws the
  windows with egui or SDL, and hands what it reads to the library.
  With no argument the program opens the DNS setter; `classic`,
  `ping-test`, `ping-monitor` and `hello` open the other programs.
- `tests/` runs the library on concrete inputs.
