pub mod create_post;
pub mod posts;
pub mod show_post;
