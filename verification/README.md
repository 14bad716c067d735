# rust_mc

A Minecraft client and man-in-the-middle proxy whose decision logic is
verified with Verus.

* `src/` is the verified library:
  * `packet.rs`: the plain values that the logic reads of protocol packets
    (`PacketView`) and writes (`OutPacket`), with their mathematical views.
  * `proxy.rs`: the UUID rewrite that lets a player keep its real identity
    while the proxy plays it on the endpoint server under a fake one, the
    proxy's forwarding loops as step functions, and the laws of the rewrite.
  * `handshake.rs`: the opening handshake of a connection as a state machine,
    with its laws (it ends in at most four steps, each side only reads or only
    writes, a success returns the state that was last set).
  * `client.rs`: the client's login (plain, compressed and encrypted) as a
    state machine, the decisions of the client's packet loop, and the laws of
    the login (offline accounts never encrypt, a successful login leaves the
    client connected).
  * `crypto.rs`: the RSA step of the encrypted login, through OpenSSL.
  * `event.rs`: the server's event system on a tokio broadcast channel.
* `app/` holds the asynchronous I/O around the library: the framed TCP
  connection, the client and the proxy that drive the state machines, and the
  conversions between wire packets and the library's values.
* `tests/` exercises every public function of the library.
