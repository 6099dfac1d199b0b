# finick

The logic of the Finick OS desktop tools (the settings app, the top bar and
`finickctl`), written in Verus with its behaviour stated in contracts and
proved.

- `src/` is the verified library, one module per area: `settings` (the
  settings store, its locks and the live updates it applies), `topbar`,
  `nav`, `network`, `bluetooth`, `display`, `printers`, `language`,
  `date_time`, `privacy`, `storage`, `about`, `shortcuts`, `summaries`,
  `page_text`, `default_apps`, `sound`, `hyprland` (the rules and commands sent to the compositor),
  `cli` and `extract`, over the string toolkit in `text`.
- `tests/` runs the library on concrete values.
- `app/` is the unverified rest: the command line, the commands whose output
  the library parses, the sockets and the float formatting. It holds no
  user interface: the windows of the settings app and the top bar are not
  part of this crate.
