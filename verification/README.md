# durable-ws-client

A reconnecting WebSocket client on top of
[`tokio-tungstenite`](https://github.com/snapview/tokio-tungstenite), with its
decisions verified in [Verus](https://github.com/verus-lang/verus).

The client attempts to reconnect on any error, while informing the application
of the error so it can permanently terminate the connection if desired.

- `src/` is the verified library. It decides and never waits: state machines
  take events and return actions.
  - `client`: connecting, announcing each outcome, backing off, stopping.
  - `session`: reading, writing and closing one open connection.
  - `client_laws`, `session_laws`: what holds of both over any sequence of
    events.
  - `config`, `backoff`, `connection`, `websocket`: what a client is set up
    with.
  - `trusted`: the outside types and functions that the proofs rely on.
- `app/` performs the actions with tokio: sockets, channels, timers, tasks.
- `tests/` runs the library on concrete inputs.

### Example usage

This is the `ReconnectingClient` of `app/`, which runs on tokio. The verified
one in `src/` has no `new`: its `connect` starts a `Run`, whose actions the
caller performs.

A `wss://` address needs some kind of TLS feature enabled on
`tokio-tungstenite`, for example `"native-tls"`. `Cargo.toml` enables none, and
without one the attempt to connect fails with an error.

```rust
let (client, mut new_connections) = ReconnectingClient::new();

let client_task = client.connect(
    Config::default(),
    "wss://www.bitmex.com/realtime".parse().unwrap(),
    WebSocketBuilder,
    ExponentialBackoffMaker::default().into(),
);

let reader_task = async move {
    let NewConnection {
        channels: (tx, mut rx),
        on_close,
    } = new_connections.recv().await.unwrap().unwrap();

    println!("message received: {:?}", rx.recv().await.unwrap());

    drop(tx);
    drop(rx);

    if let Ok(closed) = on_close.await {
        println!("close data received: {:?}", closed);
    }
};

join!(client_task, reader_task);
```
