# jira_tui

A terminal client for JIRA issues. The library in `src/` is verified with
Verus; `app/` is the program around it (terminal drawing with ratatui, key
input with crossterm, HTTP with reqwest, the configuration file).

Library modules:

- `text`: joining, comparing, number formatting and cutting of text.
- `issue`: the issue model (issues, change history, comments) and its views.
- `adf`: the part of the Atlassian Document Format that is read, and its plain text.
- `jira`: API replies, their conversion into the model, the requests sent, and status checks.
- `config`: configuration defaults, file location, template and messages.
- `recency`: whether a timestamp lies in the last seven days.
- `app`: the interface state and how keys and loaded data change it.
- `display`: the text, titles and colours that the interface shows.
- `laws`: properties that span several operations.
