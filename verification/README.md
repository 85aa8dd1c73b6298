# whispr

The logic of a local-first dictation assistant, verified with Verus.

- `src/` is the verified library:
  - `text`: trimming, ASCII case folding, script counts (Bengali, Arabic,
    Latin) and the English-sentence check.
  - `cleanup`: the cleanup of a transcript by a local language model, as a
    series of steps (ask the model, or finish with a record of what is
    pasted), with the rules that judge each answer.
  - `ollama`: server addresses, prompts and the health-check report.
  - `models`: the speech-model catalog, the recommendation, model paths.
  - `transcription`: the recogniser's command line and what its output means.
  - `recording`: the recorder's state and recording file names.
  - `tray`: the tray icon's pixels and the tray menu.
  - `config`, `error`: settings and error messages.
- `app/` is the desktop shell: windows, tray, shortcuts, microphone, files,
  HTTP and the clipboard. It runs the cleanup steps that `src/` decides.
- `tests/` runs the library on concrete values.
