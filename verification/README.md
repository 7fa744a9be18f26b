# stepler_platform

The decision layer of Stepler, a Windows tool that corrects text typed in
the wrong keyboard layout and switches input languages. The library is
written in Verus: its functions carry contracts and are proved against
them, except four small wrappers of standard-library calls
(`String::push`, `str::to_lowercase`, `String::from_utf16` and
`String::from_utf16_lossy`), whose contracts are trusted.

## Layout

- `src/` — the verified library.
  - `target_facts`, `surface`, `probes`, `resolver`, `capture`: recognising the
    focused surface, probing the methods that can read and write its text,
    and choosing one under the surface's policy. `policy_laws` states what
    holds of the policy tables as a whole.
  - `hook`, `hotkeys`, `keyboard_input`, `layout`: the keyboard hook's state
    machine, the hotkey messages, the synthetic key events, and keyboard
    layout changes.
  - `web_keyboard`, `web_capture`, `web_replacement`, `selection_methods`,
    `win32_edit`, `replacement`, `script_output`: capturing and rewriting text
    in web editors, terminals, consoles, edit controls, UI Automation and
    Word, as decisions over what the desktop reports.
  - `text`, `offsets`, `encoding`, `base64_proofs`, `ids`, `clipboard`: text,
    offsets between UTF-8, UTF-16 and edit positions, base64 and UTF-16LE,
    window ids and clipboard snapshots.
  - `diagnostics`, `remote`, `model`, `platform`: diagnostic records, the
    readline helper's logic, and the shared data types.
- `tests/` — tests on concrete values.
- `app/` — the Windows side (not verified): Win32 calls, the PowerShell
  bridge, the hook and message loop, the layout-change loop, the tray
  launcher. It performs the I/O that the library decides on.

The laws of the library are public proof functions named `law_*`.
