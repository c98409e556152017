# fake_cdn

A small self-hosted upload server: `web` serves a directory and accepts
authenticated uploads (unpacking `.tgz` archives), `init` writes a
configuration file, `install-service` writes a systemd unit.

- `src/` is the verified library (Verus): upload-path validation, file
  extensions, the upload decisions, archive screening before unpacking,
  resolution of command line and configuration file, and the text of the
  files the tool writes.
- `app/` is the program around it: argument parsing, configuration loading,
  prompts, the HTTP server and all file-system work.
- `tests/` exercises the library.
