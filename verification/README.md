# plugin-cli

A command-line tool that creates, packages and publishes plugins for a
plugin store.

- `src/` is the library, verified with Verus: path arithmetic, the plugin
  manifest and archive naming, the checks made before packaging, the list of
  files an archive holds, how the store's replies are judged, and the publish
  workflow as a state machine with its proved properties.
- `app/` is the program around it: command-line parsing, prompts, the file
  system, git, the credential store and HTTP. It asks the library what to do
  and reports back what happened.
- `tests/` exercises the library on concrete values.
