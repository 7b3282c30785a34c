# omegactrl

The settings, theme and profile rules of Omega Ctrl, a Windows desktop
program that remaps keyboard and mouse, written in Verus with their
contracts proved.

- `src/` — the verified library:
  - `texto`, `numeros`: text and number helpers (`str::trim`, `str::lines`,
    `split`, `parse`) with their specifications;
  - `mapa`: `MapaUsuario`, the user settings store (sorted entries, viewed as
    a map);
  - `formato`: reading and writing `Configuracion_Usuario.txt`;
  - `catalogo`: the factory catalogs (`configuracion.tsv`, `apariencia.tsv`);
  - `valores`, `ajustes`, `lotes`: value validation, single settings and
    all-or-nothing batches;
  - `apariencia`, `sesion`: theme files, colour links, the appearance session
    and applying a theme as sparse overrides;
  - `usuario`: profile and theme file names, the current profile;
  - `notificacion`, `bandeja`: the notification address and the tray menu.
- `tests/` — tests of the library on concrete values.
- `app/` — the program around it: files, Tauri windows, tray and process-wide
  state.
