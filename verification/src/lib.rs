//! Settings, theme and profile logic of a keyboard/mouse remapping desktop
//! program: the user settings file, its catalogs, value validation, batch
//! saving, appearance themes and the appearance session, user folder naming
//! rules, the profile notification address and the tray menu.

pub mod texto;
pub mod numeros;
pub mod mapa;
pub mod formato;
pub mod valores;
pub mod ajustes;
pub mod catalogo;
pub mod lotes;
pub mod apariencia;
pub mod sesion;
pub mod usuario;
pub mod notificacion;
pub mod bandeja;
