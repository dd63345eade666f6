# rusty_bot

A Discord bot that keeps a reputation ledger: members thank each other with
kudos (one a day, never to themselves), ask for their reputation, and list
the kudos they gave; admins enter every guild member in the ledger.

- `src/` is the verified library (Verus): the replies the bot writes, how
  command options are read, who may do what, and how a long reply is cut
  into Discord messages.
- `app/` is the program around it: the Discord connection (serenity), the
  ledger database client, and the loop that asks and answers.
- `tests/` run the library on concrete values.

Environment: `DISCORD_TOKEN`, `DATABASE_URL`, `GUILD_ID`, `BOT_ADMIN_ROLE`,
`BOT_ROLE`.
