pub mod toolbar;
pub mod topbar;
