# gelato

The logic of a small IRC client, verified with Verus, and the iced window around it.

- `src/util.rs`: reading IRC lines into per-channel logs (`filter`, `filter_text`).
- `src/app.rs`: the application's state machine (`App::update`) and what it asks the
  runtime to do (`Action`).
- `src/message.rs`: the application's messages and the loading screen's transition.
- `src/model/subscribe_irc.rs`: the phases of the subscription that reads the server.
- `src/content.rs`, `src/style.rs`: what a pane of the channel grid offers, and the looks.
- `src/view/`: the download prototype's phases and saved-state types.
- `app/`: the iced application, the IRC connection, serde, and the colours.
