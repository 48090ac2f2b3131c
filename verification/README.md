# wingosy-launcher

The verified core of a game launcher for emulated games.

`src/` is a Verus library: the emulator, platform and collection tables;
how an emulator is chosen for a game and how its command line is built;
the steps of a launch; the detection of installed emulators and of the
RetroArch cores on disk, and the directories searched; the choices behind
the launcher's commands and its database layer; the decisions of a library
sync with a RomM server (paging, skipping ROMs already met, the game made
of each ROM); what the interface shows (the game list's filter and rows,
a game's details) and its state machine. `src/laws.rs` proves properties that span these.

`app/` is the program around it: the SQLite store, downloads from GitHub
and the RetroArch build server, reading the environment and the disk,
running an emulator process, and the colours of the interface.

`tests/` runs the library on concrete values.
