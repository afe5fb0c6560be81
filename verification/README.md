# wechat

The verified core of a libpurple protocol plugin for WeChat's web protocol.

- `src/` is the library, verified with Verus: contacts (`user`) and group
  chats (`chatroom`) read from JSON members (`json`), their order (`text`),
  the login session with its headers and cookies (`session`), the steps of the
  QR-code login (`server`), and the plugin's pointer cell (`plugin_pointer`).
- `app/` is the plugin around it: the libpurple and glib callbacks, the HTTP
  client, the threads and the message queue. It performs the actions that the
  login steps ask for and hands back what the server answered.
- `tests/` runs the library on concrete values.
