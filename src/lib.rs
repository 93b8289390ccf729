//! Core of a terminal HTTP request composer: the key-driven mode machine,
//! character-safe editing of the request URL, debounce gates, tab selection
//! and the request and response models.

pub mod request;
pub mod text_edit;
pub mod debounce;
pub mod tabs;
pub mod response;
pub mod wayqa;
