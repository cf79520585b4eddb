# coffee_hit

An espresso dial-in helper: it keeps recipes and shot samples in a
tab-separated file, predicts a grinder setting for a target shot time, and
serves a small web app.

`src/` is the library, verified with Verus:

- `store`: the data file format; saving then loading gives back the recipes.
- `edit`: adding and removing recipes and samples, from the command line or
  from web forms, with the validation of every field.
- `number`, `text`, `digits`, `split`: reading decimal input exactly as a
  double would, unit suffixes, white space, tab-separated rows.
- `form`, `http`: form decoding, request planning and reading, response
  headers.
- `json`, `prediction`, `page`: the JSON and text the program writes, and the
  web page.
- `cli`: commands, options and the recipe listing.
- `laws`: properties that span several operations.

`app/` is the program around it: files, sockets, and the floating-point
regression and graph drawing, which hand their results to the library as
text.
