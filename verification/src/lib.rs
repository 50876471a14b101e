pub mod digest;
pub mod image;
pub mod isolation;
pub mod json;
pub mod layout;
pub mod link;
pub mod manifest;
pub mod reason;
pub mod record;
pub mod rename;
pub mod run;
pub mod text;
pub mod video;
pub mod weburl;
