pub mod canvas;
pub mod document;
pub mod history;
pub mod overlays;
