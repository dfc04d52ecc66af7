# storekeeper

Stamina tracking, daily-reward scheduling and notification decisions for
gacha games (Genshin Impact, Honkai: Star Rail, Zenless Zone Zero, Wuthering
Waves), with the rules stated as contracts and proved with Verus.

## Layout

- `src/` is the verified library. Every function carries a `requires` /
  `ensures` contract over spec-level models (`Seq`, `Map`, `int`), and the
  laws of the library (what a tracker decision keeps, what a retry queue
  records, what a merge keeps, round trips of claim times and keys, …) are
  public proof functions next to the code they are about.
  - `game_id`, `region`, `resource_types`, `resource`, `daily_reward`: the
    domain types, UID-to-region detection and per-game server strings.
  - `claim_time`, `api_time`, `clock`: claim times in UTC+8, API time fields,
    and the clock (read only through trusted wrappers).
  - `scheduled_claim`: wake handling, the retry queue, the next daily claim
    and claim rounds.
  - `notification`, `message_builder`, `i18n`: the notification window and
    cooldown tracker, resource estimates, message lookup and ICU-style
    formatting.
  - `config`, `config_diff`, `clients`, `game_map`, `provider_batch`: the
    configuration model, what a configuration change requires, which clients
    to build, per-game maps and how fetched data is merged.
  - `client`, `hoyolab`, `kuro`: API envelopes, retry policy, dynamic-secret
    headers, retcode catalogue and the request/response logic of both APIs.
- `app/` is a command-line driver around the library: it reads and writes the
  TOML files, performs the HTTP requests and runs the claim loop, handing
  plain values to the library and acting on what it returns.
- `tests/` holds the tests, run against the compiled library.

Calls into outside crates (chrono, jiff, md-5, rand, ICU4X, sys-locale) go
through small trusted wrappers whose doc comments say what is assumed of them.
