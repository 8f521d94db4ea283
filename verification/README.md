# git-trending-motd

The verified core of a command-line tool that shows the trending repositories
of the day. It is written in Verus.

- `src/` is the library. Its functions are verified, except five small
  wrappers around std and `dirs` calls (the clock, the user cache directory
  and path joining), whose contracts are trusted:
  - `ascii`: counts the ASCII characters in a piece of text.
  - `filters`: the "mostly ASCII" and minimum-star filters, and marking the
    repositories the user has starred.
  - `commands`: builds the clone URL, checks `owner/repo`, checks a `star`
    request, and expands provider short names.
  - `starred`: the starred-repositories cache. It covers where the cache
    lives, how long an entry stays fresh, what a loaded entry yields, and the
    entry to write.
  - `text`: compares text character by character.
- `app/` is the command-line program. It parses arguments and does the file
  and process I/O, and it calls the library for every decision.
- `tests/` runs the library on concrete inputs.
