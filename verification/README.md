# editor_panels

The state of two side panels of an editor, verified with Verus:

- the chat panel (`claude_code_panel`), which talks to an assistant through a command-line program;
- the commit panel (`git_graph_panel`), which lists the commits of the active repository.

`src/` decides: what each key, drop, click, line of output or piece of news does to a panel, what the
panel shows, and what is to be done outside. Each decision is a function with a contract, stated over
the panel's view.

| module | holds |
| --- | --- |
| `text` | whitespace, trimming, prefixes, numbers in base ten, lower case |
| `commands` | the commands that can be typed, and which of them a prefix picks |
| `json` | reading values parsed by `serde_json` |
| `stream` | the events that the assistant's program reports |
| `task` | how the program is started, and what its output adds up to |
| `claude_code_panel` | the chat panel |
| `chat_display` | what the chat panel shows |
| `chat_laws` | what holds of the chat panel whatever is done to it |
| `git_graph_panel` | the commit panel |
| `dock` | where the panels are docked |

`app/` draws, runs the program, parses its lines and asks the repository. Costs in dollars are
floating-point numbers: they are added and written there, and pass through `src/` as bits.

What is taken on trust: five functions of `serde_json` (`json`) and `str::to_lowercase` (`text`).
