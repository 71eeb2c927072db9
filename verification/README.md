# mfhq

A desktop automation bot for a game client: it finds screen templates by
zero-mean normalised cross-correlation, clicks through the game's menus, keeps
a scheduled script running inside a weekly window, and patches the game with
Cheat Engine when the daily entry limit is reached.

`src/` is the library, verified with Verus: the exact integer side of template
matching (transform sizes, transposition, integral images, template sums,
padded and flipped planes), images (decoding, cropping, screen-capture
conversion), pid-file records and the rule that a recorded process is only
terminated while its executable path matches, process and window selection,
the Cheat Engine search and autorun script, log lines, the command line, and
the task loops as state machines that return the actions to perform.

`app/` is the Windows program around it: screen capture, mouse and keyboard
input, process and window enumeration, the file system, the floating-point
correlation score, and the loops that perform the library's actions.
