pub mod changes;
pub mod codec;
pub mod dispatcher;
pub mod json;
pub mod key;
pub mod notifier;
pub mod payload;
pub mod runner;
pub mod text;
pub mod utils;
pub mod watcher;
