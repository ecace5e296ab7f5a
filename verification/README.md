# spotifyd_config

The configuration of a Spotify Connect daemon, as a library verified with Verus.

- `values`: the values that single settings take, and their counterparts in librespot
- `shared`: the settings that the command line and the configuration file share, and how
  they are merged
- `cli`: the command line, and how the configuration file is found and loaded
- `internal`: the configuration that the daemon runs with, every open setting filled in
- `proxy`, `device_id`, `backends`, `paths`, `host`, `text`: what these rest on

Settings come from three sources: the command line, the `spotifyd` section of the
configuration file, and its `global` section. What an earlier source sets, a later one
does not change.

`app/` holds what touches the outside: the spelling of the settings on the command line
and in the file, reading that file, setting up the cache, and librespot's own types.
