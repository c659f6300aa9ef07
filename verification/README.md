# tiktok_lite

The decision logic of TikTok Lite, a Windows tray shell around TikTok Web,
written in Verus with its behaviour stated as contracts and proved.

- `src/` — the verified library:
  - `navigation` — which URLs load in the main window, in popups, or in the
    browser, and which page may ask for site permissions (URL parsing is done
    by the `url` crate behind one trusted wrapper);
  - `version` — reading release tags as `major.minor.patch` and comparing them;
  - `lifecycle` — what closing, hiding, minimising or showing the window does;
  - `shell` — tray menu identifiers and commands, preference toggles,
    permission answers, and playback changes on resize;
  - `storage` — start-up settings and the names of temporary files used when
    saving them;
  - `media` — the page script that pauses media without ever starting it;
  - `update` — what an update check reports.
- `tests/` — behaviour tests of the library.
- `app/` — the program: settings file I/O with `serde_json`, and the Windows
  shell (tauri, WebView2) that performs the library's decisions.
