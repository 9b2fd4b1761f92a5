//! Decisions of the Petunia3D editor shell: the tool palettes and menus,
//! the Outliner and the inspector, the paint layer stack, the modal
//! operators and the viewport's routing of the pointer, the Tool Properties
//! card and the preferences, each stated and proved over plain values.
use vstd::prelude::*;

pub mod icons;
pub mod inspector;
pub mod main_header;
pub mod modal;
pub mod modeling;
pub mod outliner;
pub mod paint;
pub mod primitive;
pub mod recovery;
pub mod regions;
pub mod settings;
pub mod shell;
pub mod status;
pub mod text;
pub mod tokens;
pub mod tool_fields;
pub mod tool_properties;
pub mod toolbar;
pub mod uv;
pub mod viewport;
pub mod viewport_bar;
pub mod workspace;
