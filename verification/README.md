# cftun

A small CLI that turns Cloudflare Tunnel into a persistent endpoint for webhooks:
set a tunnel up once, run it with one command, and its URL stays the same.

- `src/` is the library. It decides everything: what a command asks for, what it
  makes of the answers, what it writes and what it tells the user. Verus proves
  each function against its contract, and `src/laws/` states what holds of whole
  runs, such as that a user who is asked has to say yes before anything changes,
  that every command ends, and that a command that ends well leaves the metadata
  and the configurations in agreement. The last is said of the texts of paths:
  the tunnels `a` and `./a` have different ones, and yet one file.
- `app/` is the program around it: arguments, the terminal, files, cloudflared.
- `tests/` runs the library.

One function of the standard library is trusted, `String::from_utf8_lossy`: the
text depends on the bytes alone, and valid UTF-8 is decoded.

Paths are text with `/` between components, and absolute where they begin with
one, on every platform. A tunnel cannot be named `tunnels`, since its config would
stand where the metadata is kept, nor by the path of the config of another tunnel.

| Command                                              | What it does                                         |
| ---------------------------------------------------- | ---------------------------------------------------- |
| `cftun create <name> <hostname> <port/url>`          | creates a tunnel, routes DNS and writes the config   |
| `cftun list` / `cftun ls`                            | shows managed tunnels and other cloudflared tunnels  |
| `cftun run <name>`                                   | starts a tunnel                                      |
| `cftun show <name>`                                  | prints the config file of a tunnel                   |
| `cftun update <name> --hostname <new> --local <new>` | changes the hostname or the local target             |
| `cftun import <name> <hostname> <port/url>`          | adopts an existing cloudflared tunnel                |
| `cftun status`                                       | shows all cloudflared tunnels and their connections  |
| `cftun delete <name> [--cleanup]`                    | forgets a tunnel, or deletes it from Cloudflare too  |

Left out, the arguments of `create`, `run`, `update` and `delete` are asked for.
