# lact

The decision logic of the LACT GPU control panel, verified with Verus.

- `src/css_parser.rs`: extraction of the CSS class names a stylesheet declares
  (comments skipped), kept as an ordered set without repetition (`src/lex.rs`
  holds the string order).
- `src/clocks.rs`, `src/adjustment_group.rs`: clock adjustment kinds, their
  categories, and the ordered group of adjustment rows of one category.
- `src/thermals.rs`: the fan control page: which page to show, which setting rows
  exist, and how the page's settings are written into a configuration.
- `src/page_navigation.rs`: the sidebar pages and their detachable windows.
- `src/app_state.rs`: the phases of the main window and what each message does.
- `src/loading.rs`, `src/daemon_tasks.rs`: the loading sequence of the main window
  and its multi-step tasks (renaming, importing profiles, resetting clocks), as
  step functions from state and outcome to the next request.
- `src/content.rs`, `src/gpu_config.rs`: how the main view starts and hands GPU
  data to its pages, and how the pages' settings are collected and merged into
  the stored configuration. The power cap (a float) is not modelled, and the
  overclocking page's clock commands are applied by the caller (that is the
  configuration schema's code): `collect_config` takes the clock limits they give.
- `src/confirmation.rs`, `src/error_text.rs`, `src/startup.rs`, `src/files.rs`,
  `src/text.rs`: texts, file names, driver and version checks, the settings
  confirmation countdown and the error dialog limit.
- `src/powermizer.rs`: NVIDIA PowerMizer modes and the decisions of setting one.

`app/` is a small command-line program that reads and sets the PowerMizer mode
through the NVML library, using the decisions of `src/powermizer.rs`.
