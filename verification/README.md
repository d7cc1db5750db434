# wgsocks

A SOCKS5 proxy whose connections go through a WireGuard tunnel, without a network interface of the
system: the TCP stack (smoltcp) and the tunnel (boringtun) run inside the program.

- `src/` is the library, written in Verus. It holds the SOCKS session, the main loop's decisions,
  the pool of local ports, the two relay halves and the device, each with its contract. What holds
  over several steps is proved in the modules whose names end in `laws`.
- `app/` is the program around it: sockets, threads, tasks, the clock and `config.json`.
- `tests/` runs the library together with smoltcp and boringtun.

The library calls base64, boringtun, rand, smoltcp and x25519-dalek. Each call stands in a function
of its own, marked `#[verifier::external_body]`, whose contract is taken on trust.

## Configuration

`config.json`, in the working directory:

```json
{
  "private_key": "the proxy's own key, in Base64",
  "peer": {
    "endpoint": "192.0.2.1:51820",
    "public_key": "the peer's key, in Base64"
  },
  "mtu": 1420,
  "ip4": "10.0.0.2",
  "dns": "system"
}
```

Without `dns`, domain names are refused. The proxy listens on port 1080. IPv6 destinations are not
supported. With `WGSOCKS_DEBUG_QUEUE` set, every message is printed; on `SIGUSR1`, the queue and the
connections are.

## License

MIT OR Apache-2.0
