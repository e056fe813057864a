# cp_tool

A tool for submitting solutions to competitive-programming judges (ejudge
for now). It logs in, stores the session in a `.cp-tool.config` file, finds
that file again by scanning the parent directories, and guesses the problem
id from a one-letter directory or file name (`a`/`A` is problem 1, `z` is 26).

Layout:

- `src/` is the verified library (Verus): `problem` (problem ids from names),
  `client` (submissions, stored configurations and their search), `ejudge`
  (configuration round trip, login request and answer, submission form),
  `login` (credentials), `text` (decimal rendering, trimming), `urls` (URL
  parsing and query decoding through the `url` crate), `errors`.
- `app/` is the `cpt` command: argument parsing, terminal input, files,
  HTTP requests and opening the browser.
- `tests/` exercises the library on concrete values.
