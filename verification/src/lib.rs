//! Verified core of an ultrasonic Full Matrix Capture (FMC) / Total Focusing
//! Method (TFM) workbench: material presets, defect models, the undoable
//! editing history, FMC and TFM data containers, FMC file metadata checks and
//! the editor's input decisions.
//!
//! Every numeric field that holds a physical quantity (millimetres, metres
//! per second, amplitudes) is generic over its scalar type, so the structure
//! of the data and every decision taken on it is proved independently of the
//! floating-point arithmetic that the simulation and reconstruction perform.
pub mod command;
pub mod defect;
pub mod editor;
pub mod fmc;
pub mod fmc_file;
pub mod heatmap;
pub mod material;
pub mod probe;
pub mod project;
pub mod project_file;
pub mod scatter;
pub mod tfm;

pub use command::{AddDefect, Command, CommandHistory, DefectCommand, MoveDefect, RemoveDefect};
pub use defect::{Crack, Defect, PlanarDefect, PointReflector, Porosity, Void};
pub use editor::{
    begin_drag, defect_at_position, delete_listed_defect, drag_to, end_drag, finish_drag,
    handle_keyboard, place_defect,
    FileRequest, KeyInput, ToolMode,
};
pub use fmc::{FmcData, FmcMetadata};
pub use fmc_file::{check_shape, check_version, get_i32, FmcFileError, MetaAttr, FORMAT_VERSION};
pub use heatmap::{texture_is_current, Colormap, TextureKey};
pub use material::{current_material_preset, Material, MaterialPreset};
pub use probe::Probe;
pub use project::Project;
pub use project_file::{project_version_supported, PROJECT_FORMAT_VERSION};
pub use scatter::{
    line_scatter_count, porosity_scatter_count, pulse_sample_range, LINE_SCATTER_MAX_POINTS,
    LINE_SCATTER_MIN_POINTS, POROSITY_MAX_POINTS,
};
pub use tfm::{TfmGrid, TfmImage, DEFAULT_RESOLUTION};
