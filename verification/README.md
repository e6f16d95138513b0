# vulcan

Vulcan turns local git commits into XP, day streaks, streak shields and ranks.

`src/` is the rule engine, verified with Verus:

- `state` — the profile, the commit scoring engine, the rank ladder and the dashboard contents;
- `checkpoint` — scoring a new commit: the anti-double-dip check, streak and shields, the award;
- `daemon` — the polling daemon's session scoring and daily bookkeeping;
- `calendar` — local calendar days, from the machine's time zone (chrono);
- `git` — reading `git rev-parse`, `git log` and `git diff --shortstat` output;
- `github` — reading the device-flow token poll, stepping the poll loop, seeding a profile from repositories;
- `login` — the stand-alone login flow's poll and retry decisions;
- `storage` — messages for credential-vault failures;
- `watcher` — which `.git` changes mean a commit;
- `text` — white space, trimming, substring search, words and decimal numbers;
- `laws` — properties that span the rules.

`app/` runs the program: the database (sled, serde_json), the credential vault
(keyring), GitHub over HTTP (reqwest, tokio), git processes and the file
watcher (notify). With no argument it runs the commit watcher; `login` runs the
stand-alone login; `poll` runs the polling daemon.
