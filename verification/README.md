# Project Launcher

A lightweight Windows launcher for reusable profiles: a profile groups
applications, folders, files, URLs, commands and waits, and runs them in
order. It has a native profile manager, an optional resident with a tray icon,
Windows shortcuts, and a logon entry.

- `src/` is the library: what the launcher decides and computes, verified with
  Verus. It does no input or output of its own; where the outcome of a call
  matters, the outcome is an argument, or a function that makes the call.
- `app/` is the program around it: `main`, files, Win32 and COM calls, threads
  and windows. The JSON form of the config and of run requests is declared
  there too, with its refusal of unknown fields and types.
- `tests/` runs the library on concrete values.

## Command line

```text
ProjectLauncher.exe                     open the profile manager
ProjectLauncher.exe --settings          the same
ProjectLauncher.exe --profile <GUID>    run a profile, through the resident when one runs
ProjectLauncher.exe --resident          start the resident
ProjectLauncher.exe --shortcut <GUID> [desktop|startmenu|both]
                                        create a profile shortcut
```

| code | meaning |
|------|---------|
| 0 | all actions succeeded, the request was forwarded, the resident ended normally or runs already, the shortcuts were created |
| 1 | one or more actions failed |
| 2 | usage error, config error, resident or IPC failure, shortcut error |

## Reading the contracts

Texts are sequences of characters, lists are sequences, and each config type
has a view made of these. Error messages are part of the contracts. Public
proof functions state what holds across functions; each says so in words above
its name.

What is believed without proof stands in a few declarations with a contract:
`String::push`, `char::is_whitespace` and the `{:?}` form of a string in
`text`, `char::from_u32` in `utf16`, `Path::with_extension` and `Path::join` in
`paths`, and `serde_json::to_string` of a string in `ipc`.
