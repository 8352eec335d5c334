pub mod browser;
pub mod error;
pub mod form;
pub mod html;
pub mod icon;
pub mod launcher;
pub mod names;
pub mod text;
pub mod weburl;
