pub mod save;
pub mod ocr;
