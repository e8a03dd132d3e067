# codablellm

A library for building datasets of functions extracted from source-code repositories,
written in Verus: each function states its behaviour in `requires`/`ensures` contracts that
Verus proves.

- `src/` is the verified library: languages and file extensions, tree-sitter parsing behind
  small trusted wrappers (`syntax`), function extraction and in-place editing
  (`function`, `function::parsed`, `extractor`), repositories and glob patterns (`repo`),
  the pipeline's stages (`pipeline`, `remote`), configuration (`config`, `cli::config`),
  the command line's decisions (`cli`), storage decisions (`storage`), progress bar choice
  (`progress`) and polars-backed datasets (`dataset`).
- `tests/` exercises the library on concrete values.
- `app/` is the command-line program: argument parsing, prompts, logging, file, network and
  container work, all delegating decisions to the library.
