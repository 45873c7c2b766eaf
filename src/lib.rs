//! A personal task store: tasks with a seven-state lifecycle, kept in a
//! table whose identifiers stay dense (1..N) across deletions.

pub mod error;
pub mod task;
pub mod store;
pub mod crud;
pub mod lexer;
pub mod laws;
pub mod message;

pub use crud::{create_task, delete_task, read_task, update_task, Deletion};
pub use error::{CliError, CrudError};
pub use lexer::{join_words, parse_cli, parse_num, Command, Reply};
pub use store::TaskStore;
pub use task::{title_is_blank, white_space, Config, IconColor, Task, TaskState};
pub use message::{added_message, deleted_message, updated_message};
