# aetheris_core

A verified core for the AETHERIS server orchestrator and its server-manager
front end, written in Verus.

- `src/hardware.rs` — hardware profiles (Low / Standard / High) and host facts.
- `src/users.rs` — the user registry: validation, last-administrator
  protection, bcrypt-backed passwords, and the host account steps that go with
  each change.
- `src/host.rs` — the commands and files the orchestrator produces for the host
  (sysctl settings, quotas, account commands, packages, firewall rules) and the
  arithmetic on probe readings.
- `src/install.rs` — the order and decisions of the installation, server
  installation and service-toggle procedures, as step machines.
- `src/cli.rs`, `src/manager_cli.rs` — command-line types and the tables and
  reports both programs print.
- `src/runtime.rs`, `src/mock.rs` — host interfaces of the server manager and
  the in-memory hosts used for testing.
- `src/text.rs` — decimal formatting, column padding, white-space tests.

`app/` holds the executable: argument parsing, terminal input, files, shell
commands and the asynchronous drivers that run the step machines.
