# natsort (verified)

Natural ("human") sort ordering of strings, verified with Verus: `file2` sorts
before `file10` because number runs compare as numbers.

- `src/` — the library. `flags` (the `Ns` algorithm flags), `unicode` (Unicode
  digit, numeric and case-folding data), `chars` (digit values and ASCII case),
  `number` (integers of any size as digit sequences), `text` (text-run folding), `normalize` (canonical
  decomposition), `scan` (splitting a string
  into text and number runs), `key` (natural-sort keys), `order` (the order of
  keys), `compare`, `sort` (stable natural sorting) and `cli` (command-line
  flags). Each public function carries its contract; the laws of the order and
  of sorting are proof functions beside them.
- `tests/` — tests of the library.
- `app/` — the `natsort` command (`sort` / `compare` on standard input).

Under the floating point algorithms the library does not compute `f64` values:
the caller parses the texts returned by `number_texts` and passes their bit
patterns (`f64::to_bits`) to `natsort_key`, `compare` or `natsorted_by`.
