# httpinteraction

A small server that receives Discord interactions over HTTP and hands them to bots
connected over a websocket gateway, with the decisions proved in Verus.

- `src/` is the verified library: signature checks (`sign_mod`, `sign`, `keys`),
  the hexadecimal, base64 and JSON text formats (`encoding`), the registry of
  connected bots and returned interactions (`registry`), the gateway commands and
  their messages (`routes::websocket`), the routing of HTTP interactions
  (`routes::interaction`), the error answers (`errors`) and the laws that tie the
  operations together (`laws`).
- `app/` is the warp/tokio server: it reads requests and frames, turns JSON into
  the library's models, calls the library and sends what it decides.
- `tests/` runs the library on concrete values.
