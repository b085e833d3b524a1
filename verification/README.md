# better-answer

A global shortcut for Windows that takes the selected text of any application, has a language model
rewrite it (through OpenRouter), and puts the result back.

- `src/` is the library: the shortcuts and the keyboard hook, the configuration, the prompts and the
  stream of the answer, the clipboard protocol, the placement of the window, and the state of the
  application with every event that changes it. All of it is verified with Verus. `src/laws.rs`
  states what holds over more than one event.
- `app/` is the program around it: the window, the calls into Windows, the file of the configuration
  and the requests. It carries out what the library decides.
- `tests/` runs the library on concrete values.

What is believed without proof: what `String::push` does, that `serde_json::from_str` depends on its
text alone, and how the variants of `serde_json::Value` are opened.

The icons are those of [Phosphor Icons](https://phosphoricons.com) (MIT); the font is read from
`assets/Phosphor.ttf` beside the program.

The model that answers unless the configuration names another one comes with the installation too:
`assets/model.txt` beside the program holds its name.
