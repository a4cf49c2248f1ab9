# unrust

The verified core of a small WebGL game engine and of its GLSL front end.

- `src/glsl/` — the GLSL ES front end: the lexer (`token`, `operator`), the
  expression grammar (`expression`), declarations, statements and translation
  units (`declaration`, `statement`, `parser`), lookups of declared variables
  (`query`), the constant-expression evaluator (`defeval`) and the
  preprocessor (`preprocessor/`: line joining and comment removal, reading
  directives, macro expansion, running the directives, and the laws that hold
  of it, with an entry that bounds the expansion passes). Each reader is
  stated as a spec function over the characters of the source, and the
  executable reader is proved to compute it.
- `src/webgl/` — the GL constants and the handles of GL objects, and the
  report of a GL error code.
- `src/engine/` — render states and queues, shaders preprocessed for the
  target GL, the attribute and uniform caches of a program, the bookkeeping
  of sound loading and playing (with the choice of a sound channel), the list
  of files being loaded, and the order in which a watcher starts and steps
  its actors in a frame.
- `src/uniapp.rs` — the window configuration and key events.
- `src/text.rs` — character-level helpers shared by the readers.
- `app/` — a command-line tool that preprocesses and parses a shader file.
