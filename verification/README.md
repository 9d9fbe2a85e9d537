# stasis_bot

A Minecraft bot that keeps ender pearl stasis chambers for players and keeps watch over
its surroundings. The library also holds the logic for playing Note Block Studio songs
on note blocks, handing out beer and running queued tasks.

- `src/` is the verified library: the NBS song format, note block tuning and
  playback rate limiting, the task scheduler and its tasks, stasis chamber bookkeeping
  (detection, ownership, pulling, occupants), chat and command handling, teleport
  requests, webhook messages and the smaller modules. Every public function states what
  it returns or changes; the `law_*` proof functions state what holds across functions.
- `tests/` runs the library on concrete values.
- `app/` is the program around it: options, the JSON files, song loading, the floating
  point decisions (tick rate, health, distances) and the connection to the server. It
  drives the stasis, chat, command, soundness, visual range, teleport request and webhook
  logic; the song player and the beer module are not driven by it, and its root task
  group, which `!task` and `!canceltasks` report on, stays empty.
