# nixdeploy

Deploys the NixOS configurations of a flake to their hosts: evaluates them
with Nix, builds them, copies the built systems to their hosts and activates
them there.

- `src/` is the library, verified with Verus: the command lines that are run,
  how their output and exit status are judged, which hosts and configurations
  are selected, the order in which each host is built, copied and activated,
  the errors and how they read, and what the progress display shows. Each
  public function states its result in its `ensures`; the `lemma_*` proof
  functions state properties that span functions.
- `tests/` runs the library on concrete values.
- `app/` is the command-line program around the library: argument parsing,
  running processes locally and over SSH, reading Nix's JSON output, progress
  bars and printing.
