# lfm

A keyboard-driven two-panel terminal file manager whose core is verified with
Verus.

- `src/` is the verified library: the state machine of the whole interface
  (`update`), the file panels with their filter, marks, sorting and prompts
  (`ui::file_panel`), the text fields (`ui::input_box`), the help list, the
  pinned directories, the viewer panel's target and focus, the preset
  command list, the captured-output view, the text search over a viewer's
  rendered rows (`view_search`, a component on its own that `update` does not
  drive),
  and the texts and layout decisions the widgets draw (`view`, `ui::*`). Every public
  function states what it returns in its contract; the `lemma_*` proof
  functions state the laws that span several calls.
- `tests/` exercises the library on concrete values.
- `app/` is the terminal program: it reads directories, maps keys to
  messages, draws the state with ratatui and carries out the effects the
  library returns (listing, copying, moving, deleting, opening programs).
