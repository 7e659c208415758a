# hurl request evaluation

Evaluates a parsed request entry (method, URL template, headers, query, form,
multipart and cookie sections, body, comment lines) against a table of
variables into an HTTP request, with contracts proved by Verus.

- `src/` is the verified library:
  - `ast`, `http`, `error`, `value`: the input entry, the output request, errors, variables;
  - `template`: template evaluation;
  - `multipart`: file and multipart parameters, content types by extension;
  - `request`: request evaluation, the `Content-Type` header, the cookie-storage comments;
  - `files`, `path`, `text`, `seqs`: file contents as read, Unix path rules, character utilities;
  - `laws`: properties that span inputs (files read, extra variables, trimming).
- `app/` reads the files an entry names from disk and hands their contents to the library.
- `tests/` runs the library on concrete entries.

File contents are read outside the library: `Request::files_to_read` lists
the paths, the caller reads them into a `FileStore`, and evaluation takes the store.
