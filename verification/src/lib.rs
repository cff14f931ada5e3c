//! Hierarchical file and folder storage over fixed-capacity records.
//!
//! Every owner has one profile record that counts what the owner holds. Each
//! folder and each file lives in a record of its own, whose capacity is fixed
//! when the record is created. A file's content is packed into the tail of its
//! record, behind a header of fixed width.

pub mod error;
pub mod layout;
pub mod content;
pub mod address;
pub mod user;
pub mod folder;
pub mod file;
pub mod drive;

pub use crate::error::ErrorCode;
pub use crate::file::{
    create_file, remove_file, update_file, Access, Backend, CreateFile, File, FileEncoder,
    RemoveFile, UpdateFile,
};
pub use crate::folder::{
    create_folder, remove_folder, update_folder, CreateFolder, Folder, RemoveFolder, UpdateFolder,
};
pub use crate::user::{create_user, sign, CreateUser, Sign, User};
