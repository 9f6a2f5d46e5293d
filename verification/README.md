# patentmate

The verified core of PatentMate, a desktop assistant that helps engineers turn
a rough invention draft into a structured patent disclosure.

- `src/` is the library, checked with Verus:
  - `models` — the data exchanged with the front end and its mathematical view;
  - `text` — character-level string operations with their meaning over `Seq<char>`;
  - `validation` — the chapter, table, question and marker rules a disclosure must meet;
  - `mock_session` — the offline two-question demo session;
  - `model_config` — what counts as a usable model-provider configuration and what
    the settings screen reports about it;
  - `session_service` — routing between the live model and the offline demo;
  - `ai_payload` — recovering the JSON object from a model reply;
  - `qwen_session` — building the next disclosure version, its annotations, the
    prompts and the live session from a reply.
- `app/` is the Tauri shell: commands, configuration-file I/O and HTTP calls.
- `tests/` exercises the library on concrete values.
