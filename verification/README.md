# abap_lsp

The verified core of a language server for ABAP, with the server around it.

A client browses SAP repositories through virtual directories. It names a directory by an
address such as `abap://DEV/vfs/Flight/Classes/`, where `DEV` is a configured destination
and what follows `vfs` are labels in the view of a project. Connections and views outlive
the clients that asked for them and are shared between all of them.

## Layout

- `src/` decides everything, and Verus proves what it decides: addresses and their
  spelling, configuration, what connections and views are shared, the answers to requests,
  and when the process may exit.
- `app/` reads files, talks to editors and to the repository, and tells the library what
  came of it.
- `tests/` runs the library on concrete values.

The library and the server are for systems whose paths follow POSIX, such as Linux and macOS.

| module | contents |
| --- | --- |
| `uri`, `uri_laws`, `percent` | addresses, and that what is spelled is read back |
| `config`, `environment`, `path`, `file_url` | project, user and connection configuration |
| `dotfile` | configuration by `.ziege` and `.ziegerc` |
| `context`, `context_laws`, `slots`, `fingerprint` | shared connections and views |
| `server`, `handlers` | one editor connection and its requests |
| `protocol`, `backend` | the protocol that addresses nodes by identifiers |
| `lifecycle`, `launch` | process lifetime |
| `repository`, `mounts`, `rpc`, `text`, `text_map`, `model` | shared values and helpers |

## What is trusted

The percent encoding comes from `percent-encoding` and the reading of file URLs from `url`.
The items that call them, and the few that call the standard library, say in their
documentation what is relied on.

## Files

Configuration files use TOML and require `version = 1`. `ziege.toml` in a project selects
destinations and mounts:

```toml
version = 1

[systems.DEV]
folder = "SAP-DEV"

[[systems.DEV.mounts]]
kind = "package"
label = "Flight"
package = "/DMO/FLIGHT"
```

`destinations.toml`, beside the configuration of the user, names the connections:

```toml
version = 1

[destinations.DEV]
url = "https://example.invalid"
client = "100"
username = "DEVELOPER"
password = "example-password"
```
