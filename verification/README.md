# identity

The verified core of a program for comparing several versions of an image or video side by
side. The library in `src/` holds the decisions of the program, each with a contract checked
by Verus:

- `path_recorder`: click recording for path documents (which clicks count, the session that
  pins itself to one media file, the document fields, the output file name and timestamp);
- `page_grid`: the row/column layout of pages with its selection;
- `window`: number-key tab focus, moving pages between tabs and the grid, closing tabs,
  finding the page of a playback source;
- `display_mode`: the tabbed/row/column modes and their names;
- `va_display`: sharing one VA display among all playback pipelines;
- `playback`: merging player requests, the order of the work done for each batch, playback
  direction and frame steps, the position label;
- `page`: the loading/error status of a page and the codec and container read from stream tags;
- `geometry`: rotation and media sizes in pixels;
- `utils`, `text`: filling translated text with placeholders, and decimal rendering.

`app/` is the GTK and GStreamer program around the library: widgets, media pipelines, file
I/O, message catalog lookups, JSON output and all floating-point geometry. `tests/` runs the
library on concrete values.
