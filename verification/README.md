# whisper_dictate

Offline dictation and file transcription (Whisper, run locally). This crate
holds the part of the application that decides things, written in Verus and
proved against its contracts:

| module          | what it decides                                                           |
|-----------------|---------------------------------------------------------------------------|
| `engine`        | the dictation worker's state machine: commands, poll timeouts, effects    |
| `recording`     | the tick while recording (level window, interim run) and the final pass   |
| `file_job`      | the steps of a file transcription and what the UI is told after each      |
| `transcription` | 30-second windows of a long recording; assembling whisper's segments      |
| `model`         | model catalogue, which model file is used, download progress/completeness |
| `flags`         | one download per model in flight, with its cancellation flag              |
| `decode`        | decoder plan of a track, packet-loop reaction to failures, Opus pre-skip  |
| `loop_scan`     | where loop detection compares a recording with its opening                |
| `mic`           | microphone permission decisions                                           |
| `audio`         | device list lines, supported capture formats                              |
| `diag`          | summaries of system tool output for start-up diagnostics                  |
| `text`          | trimming, line splitting, joining, prefix/substring search, decimals      |

`app/` is the Tauri application around it: microphone capture (cpal), file
decoding (symphonia, libopus), whisper-rs, downloads (reqwest), UI events. It
drives the verified state machines and performs the work they ask for.
Floating-point sample processing (resampling, RMS, loop fingerprints) stays
there too.

`tests/` runs the library on concrete inputs.
