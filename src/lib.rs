pub mod context;
pub mod events;
pub mod modal;
pub mod navigation;
pub mod page;
pub mod sorting;
pub mod table;
pub mod volume;
