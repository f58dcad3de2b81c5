# win-debloat

Takes a stock Windows 10/11 ISO, strips bloatware at the WIM image level and
produces a clean bootable ISO, entirely on Linux.

The crate has two parts:

- `src/` is the library, verified with Verus. It holds the decisions of
  the debloat steps: which files and package directories are removed from the
  mounted image (`fixes::apps`, `fixes::appx`, `fixes::ai`, `fixes::cap`),
  the registry operations of each tweak set and the `.reg` merge scripts
  that carry them (`fixes::registry`, `fixes::tweaks`), the
  `autounattend.xml` answer file (`fixes::autounattend`), the arguments of
  `7z`, `wimlib-imagex` and `xorriso`, the reading of image listings, the
  choice of edition, the order of the steps (`helpers`) and which failures
  end a step (`fixes::next_action`). Text handling
  and number formatting live in `text` and `num`.
- `app/` is the program around it: command line parsing, running the
  external tools, reading directories, deleting files, writing the merge
  scripts and the answer file, terminal output, and the top-level loop that
  reports a failed step and goes on with the next.

External tools needed at run time: xorriso, wimlib, hivex, p7zip.
