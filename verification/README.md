# tuidui

A gamified to-do list for the terminal. `src/` is the library, verified with
Verus: the task model and the text shown for tasks (`task`, `display`), the saved
form of dates (`system_time_format`), where task lists are saved (`save`), the
counter screen's state machine (`tui`), the decisions taken while polling the
assistant service and answering its tool calls (`openai`), and the user profile
(`user`). `app/` is the program around it: the terminal loop and drawing, files,
JSON, and the requests to the assistant service. `tests/` runs the library.
