# copylot

The core of Copylot, a Windows desktop tool that translates the text selected
in any application into Simplified Chinese and shows the result in a small
always-on-top window beside the cursor.

- `src/` is the verified library (Verus): configuration defaults and patching,
  the translation history, white-space trimming and line-ending clean-up of
  the selection, planning of the chat-completion request and collection of its
  streamed answer, and the decisions taken around the persistent store, the
  clipboard, the global shortcut and the tray.
- `app/` is the Tauri application around it: windows, tray, global shortcut,
  store plugin, clipboard and keyboard access, UI Automation and the network
  call. Each of its decisions is taken by a library function.
- `tests/` runs the library on concrete values.
