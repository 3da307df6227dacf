# save_voucher

A command-line helper that saves a shop voucher at a chosen time of day. The program asks
for the account (a cookie file), the voucher (a promotion id and signature, or a collection
id to look the voucher up in), and the time to act; it counts down and then sends the save
request, retrying when the service asks for it.

Layout:

- `src/` — the verified library (Verus):
  - `text` — white space, `trim`, substring search over characters;
  - `cookie` — the CSRF token of a cookie;
  - `decimal` — reading and writing `i64` in decimal, zero-padded fields;
  - `clock` — times of day, spans, the countdown display and step, the task time
    (read with chrono);
  - `json` — a JSON reply as plain values;
  - `voucher` — finding the voucher in a collection reply;
  - `request` — request bodies and headers;
  - `session` — menu answers and what to do after each reply.
- `app/` — the program: terminal input and output, files, the clock, waiting, HTTP and JSON
  (de)serialisation.
- `tests/` — tests of the library, many of them against std, chrono and reqwest.
