# mangajanai_gui

The desktop front end of the MangaJaNai upscaler: it detects the GPU, lists the
upscaling models, downloads the model archives, installs the Python runtime with
`uv` and PyTorch, and starts, watches and cancels the upscaler process.

- `src/` is the verified library (Verus). It holds every decision the front end
  makes, each with a contract:
  - `text`: the string operations the tools' output goes through (lines, trim,
    find, number parsing and formatting), specified over `Seq<char>`;
  - `gpu`: what `rocminfo`, `rocm-smi` and `lsmod` report about the GPU;
  - `models`: the model files of a folder, in ascending order;
  - `paths`: the project root, Windows paths, the Python install lookup;
  - `transfer`: resuming downloads and reporting their progress;
  - `fetch`: fetching the model archives, as a state machine;
  - `setup`: installing uv, Python and PyTorch, as a state machine;
  - `upscale`: the running upscaler process and its monitor.
- `app/` is the Tauri application around it: commands, processes, files,
  network and threads. It performs the actions the state machines return.
- `tests/` runs the library on concrete inputs.
