# platypus-powder-ping

Lists the packages that a nix-darwin flake installs and the newer versions
that nixpkgs-unstable offers for them, optionally sending a desktop
notification.

Layout:

- `src/` is the verified library (Verus): the configuration path, the
  decisions about each installed package (ignored, unversioned, looked up
  under another name), the Nix expressions, the sorted summary of a run and
  the texts it prints, each with its contract, and the laws about them.
- `app/` is the program around it: argument parsing, reading the TOML
  file, running `nix eval` and `hostname`, the parallel walk over the store
  paths, progress bars, the table and the notification commands.
- `tests/` exercises the library.
