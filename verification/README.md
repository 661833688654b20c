# video_compare

The engine of a desktop player that compares videos side by side: several videos
are open at once, each in a tab, all on one clock, and switching tabs shows the
same moment of another video at once.

* `src/` is the library. It holds every decision: tabs and playback, opening and
  reopening, seeks, the facts of the info bar, the use of the two GL textures, and
  every text in the window. Its behaviour is stated in contracts and proved with
  Verus. It contains no floating point and trusts nothing outside itself.
* `app/` is the program: GStreamer, GL, the window and the file dialog. It reports
  what it reads to the library and carries out the actions that it gets back. To
  open a window, build Slint with the features `backend-winit` and
  `renderer-femtovg`.
* `tests/` runs the library on concrete values.
