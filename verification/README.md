# oleg

A Telegram chat bot with an assistant ("Oleg"), image generation and description,
translation, web search and exchange rates.

- `src/` is the verified library: command arguments, the routing of plain messages, the
  records kept of a chat, the step-by-step collection of a message's thread, the conversation
  shown to the assistant and what its answers lead to, the functions it may call, the per-chat
  pause between image requests, and the text rules they rest on (trimming, splitting, integer
  parsing, one-placeholder format strings).
- `app/` is the bot itself: Telegram, SQLite, HTTP and the OpenAI and Google clients, driving
  the library.
- `tests/` runs the library on concrete values.
